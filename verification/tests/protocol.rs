use esp_display::protocol::{
    state_change_packet, time_delay_resp_packet, time_follow_up_packet, time_sync_packet,
    write_naive_datetime, ClockType, IncomingPacketType, OutgoingPacketType, State, Timestamp,
    PACKET_FILLER, SEND_PACKET_SIZE,
};

#[test]
fn outgoing_type_bytes() {
    assert_eq!(u8::from(OutgoingPacketType::TimeSync), 0);
    assert_eq!(u8::from(OutgoingPacketType::TimeFollowUp), 1);
    assert_eq!(u8::from(OutgoingPacketType::TimeDelayResp), 2);
    assert_eq!(u8::from(OutgoingPacketType::StateChange), 3);
}

#[test]
fn state_bytes_are_distinct() {
    let states = [
        State::Off,
        State::Stream,
        State::Clock(ClockType::Small),
        State::Clock(ClockType::Large),
    ];
    let codes: Vec<u8> = states.iter().map(|s| u8::from(*s)).collect();
    assert_eq!(codes, vec![0, 1, 2, 3]);
}

#[test]
fn clock_type_bytes() {
    assert_eq!(u8::from(ClockType::Small), 0);
    assert_eq!(u8::from(ClockType::Large), 1);
}

#[test]
fn default_state_is_large_clock() {
    assert_eq!(State::default(), State::Clock(ClockType::Large));
    assert_eq!(u8::from(State::default()), 3);
}

#[test]
fn incoming_type_decoding() {
    assert_eq!(IncomingPacketType::try_from(0u8), Ok(IncomingPacketType::Keepalive));
    assert_eq!(IncomingPacketType::try_from(1u8), Ok(IncomingPacketType::TimeDelayReq));
    assert_eq!(IncomingPacketType::try_from(2u8), Err(()));
    assert_eq!(IncomingPacketType::try_from(255u8), Err(()));
}

#[test]
fn state_change_packet_layout() {
    let p = state_change_packet(State::Stream);
    assert_eq!(p.len(), SEND_PACKET_SIZE);
    assert_eq!(p[0], 3);
    assert_eq!(p[1], 1);
    assert!(p[2..].iter().all(|b| *b == PACKET_FILLER));
    let q = state_change_packet(State::Clock(ClockType::Small));
    assert_eq!(q[1], 2);
}

#[test]
fn sync_packet_layout() {
    let p = time_sync_packet();
    assert_eq!(p[0], 0);
    assert!(p[1..].iter().all(|b| *b == PACKET_FILLER));
    assert_eq!(PACKET_FILLER, 0x56);
}

#[test]
fn write_naive_datetime_little_endian() {
    let mut buf = [0xAAu8; 14];
    write_naive_datetime(
        &mut buf,
        Timestamp { secs: 0x0102_0304_0506_0708, subsec_nanos: 0x1122_3344 },
    );
    assert_eq!(
        buf,
        [0x08, 0x07, 0x06, 0x05, 0x04, 0x03, 0x02, 0x01, 0x44, 0x33, 0x22, 0x11, 0xAA, 0xAA]
    );
}

#[test]
fn write_naive_datetime_negative_seconds() {
    let mut buf = [0u8; 12];
    write_naive_datetime(&mut buf, Timestamp { secs: -1, subsec_nanos: 999_999_999 });
    assert_eq!(&buf[0..8], &[0xFF; 8]);
    assert_eq!(&buf[8..12], &999_999_999u32.to_le_bytes());
}

#[test]
fn follow_up_packet_layout() {
    let t = Timestamp { secs: 1_700_000_000, subsec_nanos: 250_000_000 };
    let p = time_follow_up_packet(t);
    assert_eq!(p[0], 1);
    assert_eq!(&p[1..9], &1_700_000_000i64.to_le_bytes());
    assert_eq!(&p[9..13], &250_000_000u32.to_le_bytes());
    assert!(p[13..].iter().all(|b| *b == PACKET_FILLER));
}

#[test]
fn delay_resp_packet_layout() {
    let t = Timestamp { secs: 42, subsec_nanos: 7 };
    let p = time_delay_resp_packet(t);
    assert_eq!(p[0], 2);
    assert_eq!(&p[1..13], &[42, 0, 0, 0, 0, 0, 0, 0, 7, 0, 0, 0]);
    assert!(p[13..].iter().all(|b| *b == PACKET_FILLER));
}

#[test]
fn distinct_timestamps_give_distinct_packets() {
    let a = time_follow_up_packet(Timestamp { secs: 5, subsec_nanos: 1 });
    let b = time_follow_up_packet(Timestamp { secs: 5, subsec_nanos: 2 });
    let c = time_follow_up_packet(Timestamp { secs: 6, subsec_nanos: 1 });
    assert_ne!(a, b);
    assert_ne!(a, c);
    assert_ne!(b, c);
}
