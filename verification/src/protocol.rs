//! The packets exchanged with the display device on its main control link.
//!
//! Every packet sent to the device is `SEND_PACKET_SIZE` bytes long: a type
//! byte, a payload, and `PACKET_FILLER` in every byte the payload leaves free.

use crate::wire::{le_bytes_i64, le_bytes_u32, write_i64_le, write_u32_le};
use vstd::prelude::*;

verus! {

/// The byte that pads every outgoing packet.
pub const PACKET_FILLER: u8 = 0b01010110;

/// The length of every outgoing packet.
pub const SEND_PACKET_SIZE: usize = 64;

/// The kinds of packet sent to the device, by their type byte.
#[derive(Debug, Clone, Copy, PartialEq, Eq, Structural)]
pub enum OutgoingPacketType {
    TimeSync,
    TimeFollowUp,
    TimeDelayResp,
    StateChange,
}

/// The type byte of an outgoing packet kind.
pub open spec fn outgoing_code(t: OutgoingPacketType) -> u8 {
    match t {
        OutgoingPacketType::TimeSync => 0,
        OutgoingPacketType::TimeFollowUp => 1,
        OutgoingPacketType::TimeDelayResp => 2,
        OutgoingPacketType::StateChange => 3,
    }
}

impl From<OutgoingPacketType> for u8 {
    fn from(val: OutgoingPacketType) -> (r: u8) {
        match val {
            OutgoingPacketType::TimeSync => 0,
            OutgoingPacketType::TimeFollowUp => 1,
            OutgoingPacketType::TimeDelayResp => 2,
            OutgoingPacketType::StateChange => 3,
        }
    }
}

impl vstd::std_specs::convert::FromSpecImpl<OutgoingPacketType> for u8 {
    open spec fn obeys_from_spec() -> bool {
        true
    }

    open spec fn from_spec(v: OutgoingPacketType) -> u8 {
        outgoing_code(v)
    }
}

} // verus!

verus! {

/// The kinds of packet the device sends, by their type byte.
#[derive(Debug, Clone, Copy, PartialEq, Eq, Structural)]
pub enum IncomingPacketType {
    Keepalive,
    TimeDelayReq,
}

/// The packet kind a type byte names, if any.
pub open spec fn incoming_from_code(value: u8) -> Result<IncomingPacketType, ()> {
    if value == 0 {
        Ok(IncomingPacketType::Keepalive)
    } else if value == 1 {
        Ok(IncomingPacketType::TimeDelayReq)
    } else {
        Err(())
    }
}

impl TryFrom<u8> for IncomingPacketType {
    type Error = ();

    fn try_from(value: u8) -> (r: Result<Self, Self::Error>) {
        match value {
            0 => Ok(IncomingPacketType::Keepalive),
            1 => Ok(IncomingPacketType::TimeDelayReq),
            _ => Err(()),
        }
    }
}

impl vstd::std_specs::convert::TryFromSpecImpl<u8> for IncomingPacketType {
    open spec fn obeys_try_from_spec() -> bool {
        true
    }

    open spec fn try_from_spec(v: u8) -> Result<Self, ()> {
        incoming_from_code(v)
    }
}

/// The clock faces the device can show.
#[derive(Debug, Clone, Copy, PartialEq, Eq, Structural)]
pub enum ClockType {
    Small,
    Large,
}

/// The number by which a clock face is sent.
pub open spec fn clock_code(c: ClockType) -> u8 {
    match c {
        ClockType::Small => 0,
        ClockType::Large => 1,
    }
}

impl From<ClockType> for u8 {
    fn from(val: ClockType) -> (r: u8) {
        match val {
            ClockType::Small => 0,
            ClockType::Large => 1,
        }
    }
}

impl vstd::std_specs::convert::FromSpecImpl<ClockType> for u8 {
    open spec fn obeys_from_spec() -> bool {
        true
    }

    open spec fn from_spec(v: ClockType) -> u8 {
        clock_code(v)
    }
}

/// What the device displays.
#[derive(Debug, Clone, Copy, PartialEq, Eq, Structural)]
pub enum State {
    Stream,
    Clock(ClockType),
    Off,
}

/// The byte by which a display state is sent.
pub open spec fn state_code(s: State) -> u8 {
    match s {
        State::Stream => 1,
        State::Clock(c) => (2 + clock_code(c)) as u8,
        State::Off => 0,
    }
}

impl From<State> for u8 {
    fn from(val: State) -> (r: u8) {
        match val {
            State::Stream => 1,
            State::Clock(clock_type) => 2u8 + u8::from(clock_type),
            State::Off => 0,
        }
    }
}

impl vstd::std_specs::convert::FromSpecImpl<State> for u8 {
    open spec fn obeys_from_spec() -> bool {
        true
    }

    open spec fn from_spec(v: State) -> u8 {
        state_code(v)
    }
}

impl Default for State {
    fn default() -> (r: Self)
        ensures
            r == State::Clock(ClockType::Large),
    {
        State::Clock(ClockType::Large)
    }
}

} // verus!

verus! {

/// A point in time as the device is told it: whole seconds since the Unix
/// epoch and the nanoseconds past that second.
#[derive(Debug, Clone, Copy, PartialEq, Eq, Structural)]
pub struct Timestamp {
    pub secs: i64,
    pub subsec_nanos: u32,
}

/// The twelve bytes of a timestamp on the wire: the seconds as a
/// little-endian `i64`, then the nanoseconds as a little-endian `u32`.
pub open spec fn timestamp_bytes(t: Timestamp) -> Seq<u8> {
    le_bytes_i64(t.secs) + le_bytes_u32(t.subsec_nanos)
}

/// A packet of type byte `code` carrying `payload`, padded with
/// `PACKET_FILLER` to `SEND_PACKET_SIZE` bytes.
pub open spec fn filled_packet(code: u8, payload: Seq<u8>) -> Seq<u8> {
    seq![code] + payload + Seq::new(
        (SEND_PACKET_SIZE - 1 - payload.len()) as nat,
        |i: int| PACKET_FILLER,
    )
}

/// Writes `date_time` over the first twelve bytes of `transmit_buffer`:
/// seconds then nanoseconds, both little-endian; the rest is left alone.
pub fn write_naive_datetime(transmit_buffer: &mut [u8], date_time: Timestamp)
    requires
        old(transmit_buffer)@.len() >= 12,
    ensures
        final(transmit_buffer)@ == timestamp_bytes(date_time) + old(transmit_buffer)@.subrange(
            12,
            old(transmit_buffer)@.len() as int,
        ),
{
    let ghost before = transmit_buffer@;
    let (secs_part, rest) = transmit_buffer.split_at_mut(8);
    write_i64_le(secs_part, date_time.secs);
    write_u32_le(rest, date_time.subsec_nanos);
    assert(before.subrange(8, before.len() as int).subrange(4, before.len() - 8) =~= before.subrange(12, before.len() as int));
}

/// A packet of the given type with nothing but filler after the type byte.
fn empty_packet(packet_type: OutgoingPacketType) -> (packet: [u8; 64])
    ensures
        packet@ == filled_packet(outgoing_code(packet_type), Seq::empty()),
{
    let mut packet = [PACKET_FILLER; 64];
    packet[0] = packet_type.into();
    assert(packet@ =~= filled_packet(outgoing_code(packet_type), Seq::empty()));
    packet
}

/// The packet that tells the device to show `state`.
pub fn state_change_packet(state: State) -> (packet: [u8; 64])
    ensures
        packet@ == filled_packet(outgoing_code(OutgoingPacketType::StateChange), seq![state_code(state)]),
{
    let mut packet = empty_packet(OutgoingPacketType::StateChange);
    packet[1] = state.into();
    assert(packet@ =~= filled_packet(outgoing_code(OutgoingPacketType::StateChange), seq![state_code(state)]));
    packet
}

/// The packet that opens a time-synchronisation round.
pub fn time_sync_packet() -> (packet: [u8; 64])
    ensures
        packet@ == filled_packet(outgoing_code(OutgoingPacketType::TimeSync), Seq::empty()),
{
    empty_packet(OutgoingPacketType::TimeSync)
}

/// A packet of the given type whose payload is `date_time`.
fn timed_packet(packet_type: OutgoingPacketType, date_time: Timestamp) -> (packet: [u8; 64])
    ensures
        packet@ == filled_packet(outgoing_code(packet_type), timestamp_bytes(date_time)),
{
    let mut packet = empty_packet(packet_type);
    {
        let whole: &mut [u8] = &mut packet;
        let (_, payload) = whole.split_at_mut(1);
        write_naive_datetime(payload, date_time);
    }
    assert(packet@ =~= filled_packet(outgoing_code(packet_type), timestamp_bytes(date_time)));
    packet
}

/// The packet that tells the device when the last sync packet was sent.
pub fn time_follow_up_packet(sent_sync: Timestamp) -> (packet: [u8; 64])
    ensures
        packet@ == filled_packet(outgoing_code(OutgoingPacketType::TimeFollowUp), timestamp_bytes(sent_sync)),
{
    timed_packet(OutgoingPacketType::TimeFollowUp, sent_sync)
}

/// The packet that tells the device when its delay request arrived.
pub fn time_delay_resp_packet(received_delay_request: Timestamp) -> (packet: [u8; 64])
    ensures
        packet@ == filled_packet(
            outgoing_code(OutgoingPacketType::TimeDelayResp),
            timestamp_bytes(received_delay_request),
        ),
{
    timed_packet(OutgoingPacketType::TimeDelayResp, received_delay_request)
}

} // verus!

verus! {

/// Distinct display states are sent as distinct bytes.
pub proof fn lemma_state_code_injective(a: State, b: State)
    requires
        state_code(a) == state_code(b),
    ensures
        a == b,
{
}

/// Distinct kinds of outgoing packet carry distinct type bytes.
pub proof fn lemma_outgoing_code_injective(a: OutgoingPacketType, b: OutgoingPacketType)
    requires
        outgoing_code(a) == outgoing_code(b),
    ensures
        a == b,
{
}

/// A timestamp is written without loss: distinct timestamps are written as
/// distinct bytes.
pub proof fn lemma_timestamp_bytes_injective(a: Timestamp, b: Timestamp)
    requires
        timestamp_bytes(a) == timestamp_bytes(b),
    ensures
        a == b,
{
    let sa = timestamp_bytes(a);
    let sb = timestamp_bytes(b);
    let x = a.secs as u64;
    let y = b.secs as u64;
    assert(sa[0] == sb[0] && sa[1] == sb[1] && sa[2] == sb[2] && sa[3] == sb[3]);
    assert(sa[4] == sb[4] && sa[5] == sb[5] && sa[6] == sb[6] && sa[7] == sb[7]);
    assert(sa[8] == sb[8] && sa[9] == sb[9] && sa[10] == sb[10] && sa[11] == sb[11]);
    assert(x == y) by (bit_vector)
        requires
            x as u8 == y as u8,
            (x >> 8u64) as u8 == (y >> 8u64) as u8,
            (x >> 16u64) as u8 == (y >> 16u64) as u8,
            (x >> 24u64) as u8 == (y >> 24u64) as u8,
            (x >> 32u64) as u8 == (y >> 32u64) as u8,
            (x >> 40u64) as u8 == (y >> 40u64) as u8,
            (x >> 48u64) as u8 == (y >> 48u64) as u8,
            (x >> 56u64) as u8 == (y >> 56u64) as u8,
    ;
    let sx = a.secs;
    let sy = b.secs;
    assert(sx == sy) by (bit_vector)
        requires
            sx as u64 == sy as u64,
    ;
    let u = a.subsec_nanos;
    let v = b.subsec_nanos;
    assert(u == v) by (bit_vector)
        requires
            u as u8 == v as u8,
            (u >> 8u32) as u8 == (v >> 8u32) as u8,
            (u >> 16u32) as u8 == (v >> 16u32) as u8,
            (u >> 24u32) as u8 == (v >> 24u32) as u8,
    ;
}

} // verus!
