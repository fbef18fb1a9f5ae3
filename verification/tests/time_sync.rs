use esp_display::protocol::{time_delay_resp_packet, time_follow_up_packet, time_sync_packet, Timestamp};
use esp_display::time_sync::{
    time_control_start, time_control_step, TimeSyncAction, TimeSyncEvent, TimeSyncPhase,
    FOLLOW_UP_DELAY_MILLIS, ROUND_INTERVAL_MILLIS,
};

fn sent(a: TimeSyncAction) -> [u8; 64] {
    match a {
        TimeSyncAction::Send(p) => p,
        other => panic!("expected a packet to send, got {other:?}"),
    }
}

fn slept(a: TimeSyncAction) -> u64 {
    match a {
        TimeSyncAction::Sleep(ms) => ms,
        other => panic!("expected a sleep, got {other:?}"),
    }
}

#[test]
fn full_round() {
    let t1 = Timestamp { secs: 100, subsec_nanos: 5 };
    let t2 = Timestamp { secs: 101, subsec_nanos: 6 };
    let (p, a) = time_control_start();
    assert_eq!(p, TimeSyncPhase::ReadingSyncClock);
    assert!(matches!(a, TimeSyncAction::ReadClock));
    let (p, a) = time_control_step(p, TimeSyncEvent::Clock(t1));
    assert_eq!(sent(a), time_sync_packet());
    let (p, a) = time_control_step(p, TimeSyncEvent::Sent);
    assert_eq!(slept(a), FOLLOW_UP_DELAY_MILLIS);
    assert_eq!(FOLLOW_UP_DELAY_MILLIS, 100);
    let (p, a) = time_control_step(p, TimeSyncEvent::Slept);
    assert_eq!(sent(a), time_follow_up_packet(t1));
    let (p, a) = time_control_step(p, TimeSyncEvent::Sent);
    assert!(matches!(a, TimeSyncAction::AwaitDelayRequest));
    let (p, a) = time_control_step(p, TimeSyncEvent::DelayRequested);
    assert!(matches!(a, TimeSyncAction::ReadClock));
    let (p, a) = time_control_step(p, TimeSyncEvent::Clock(t2));
    assert_eq!(sent(a), time_delay_resp_packet(t2));
    let (p, a) = time_control_step(p, TimeSyncEvent::Sent);
    assert_eq!(slept(a), ROUND_INTERVAL_MILLIS);
    assert_eq!(ROUND_INTERVAL_MILLIS, 60_000);
    let (p, a) = time_control_step(p, TimeSyncEvent::Slept);
    assert_eq!(p, TimeSyncPhase::ReadingSyncClock);
    assert!(matches!(a, TimeSyncAction::ReadClock));
}

#[test]
fn unexpected_event_repeats_the_action() {
    let t = Timestamp { secs: 9, subsec_nanos: 0 };
    let p = TimeSyncPhase::SendingFollowUp { sent_sync: t };
    let (q, a) = time_control_step(p, TimeSyncEvent::DelayRequested);
    assert_eq!(q, p);
    assert_eq!(sent(a), time_follow_up_packet(t));
    let (q, a) = time_control_step(TimeSyncPhase::AwaitingDelayRequest, TimeSyncEvent::Sent);
    assert_eq!(q, TimeSyncPhase::AwaitingDelayRequest);
    assert!(matches!(a, TimeSyncAction::AwaitDelayRequest));
}
