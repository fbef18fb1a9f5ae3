//! The time-synchronisation round run with the device, as a state machine:
//! the caller performs each action it returns (reads the clock, sends a
//! packet, sleeps, waits for the device's delay request) and hands back what
//! came of it.
//!
//! One round: read the clock, send a sync packet, pause, send a follow-up
//! carrying the time read before the sync, wait for the device's delay
//! request, read the clock, answer with that time, rest, and start over.

use crate::protocol::{
    filled_packet, outgoing_code, time_delay_resp_packet, time_follow_up_packet, time_sync_packet,
    timestamp_bytes, OutgoingPacketType, Timestamp,
};
use vstd::prelude::*;

verus! {

/// The pause between the sync packet and its follow-up, in milliseconds.
pub const FOLLOW_UP_DELAY_MILLIS: u64 = 100;

/// The rest between the end of a round and the next one, in milliseconds.
pub const ROUND_INTERVAL_MILLIS: u64 = 60000;

/// Where the round stands: what the machine waits for.
#[derive(Debug, Clone, Copy, PartialEq, Eq, Structural)]
pub enum TimeSyncPhase {
    /// Waiting for the clock reading that dates the sync packet.
    ReadingSyncClock,
    /// Waiting for the sync packet to be sent.
    SendingSync { sent_sync: Timestamp },
    /// Waiting out the pause before the follow-up.
    PausingBeforeFollowUp { sent_sync: Timestamp },
    /// Waiting for the follow-up to be sent.
    SendingFollowUp { sent_sync: Timestamp },
    /// Waiting for the device's delay request.
    AwaitingDelayRequest,
    /// Waiting for the clock reading that dates the delay request.
    ReadingRequestClock,
    /// Waiting for the delay response to be sent.
    SendingDelayResp { received_delay_request: Timestamp },
    /// Waiting out the rest before the next round.
    Resting,
}

/// What came of the last action.
#[derive(Debug, Clone, Copy, PartialEq, Eq, Structural)]
pub enum TimeSyncEvent {
    /// The clock was read.
    Clock(Timestamp),
    /// The packet was sent.
    Sent,
    /// The sleep is over.
    Slept,
    /// The device asked for the delay response.
    DelayRequested,
}

/// What the caller is to do next.
#[derive(Debug, Clone, Copy)]
pub enum TimeSyncAction {
    ReadClock,
    Send([u8; 64]),
    Sleep(u64),
    AwaitDelayRequest,
}

/// The phase that follows `phase` on `event`; an event the phase does not
/// wait for leaves it where it is.
pub open spec fn next_phase(phase: TimeSyncPhase, event: TimeSyncEvent) -> TimeSyncPhase {
    match (phase, event) {
        (TimeSyncPhase::ReadingSyncClock, TimeSyncEvent::Clock(t)) => TimeSyncPhase::SendingSync {
            sent_sync: t,
        },
        (TimeSyncPhase::SendingSync { sent_sync }, TimeSyncEvent::Sent) => {
            TimeSyncPhase::PausingBeforeFollowUp { sent_sync }
        },
        (TimeSyncPhase::PausingBeforeFollowUp { sent_sync }, TimeSyncEvent::Slept) => {
            TimeSyncPhase::SendingFollowUp { sent_sync }
        },
        (TimeSyncPhase::SendingFollowUp { .. }, TimeSyncEvent::Sent) => {
            TimeSyncPhase::AwaitingDelayRequest
        },
        (TimeSyncPhase::AwaitingDelayRequest, TimeSyncEvent::DelayRequested) => {
            TimeSyncPhase::ReadingRequestClock
        },
        (TimeSyncPhase::ReadingRequestClock, TimeSyncEvent::Clock(t)) => {
            TimeSyncPhase::SendingDelayResp { received_delay_request: t }
        },
        (TimeSyncPhase::SendingDelayResp { .. }, TimeSyncEvent::Sent) => TimeSyncPhase::Resting,
        (TimeSyncPhase::Resting, TimeSyncEvent::Slept) => TimeSyncPhase::ReadingSyncClock,
        _ => phase,
    }
}

/// `action` is what the caller must do while the round is in `phase`.
pub open spec fn is_pending_action(phase: TimeSyncPhase, action: TimeSyncAction) -> bool {
    match phase {
        TimeSyncPhase::ReadingSyncClock => action is ReadClock,
        TimeSyncPhase::SendingSync { .. } => action matches TimeSyncAction::Send(p) && p@
            == filled_packet(outgoing_code(OutgoingPacketType::TimeSync), Seq::empty()),
        TimeSyncPhase::PausingBeforeFollowUp { .. } => action matches TimeSyncAction::Sleep(ms)
            && ms == FOLLOW_UP_DELAY_MILLIS,
        TimeSyncPhase::SendingFollowUp { sent_sync } => action matches TimeSyncAction::Send(p)
            && p@ == filled_packet(
            outgoing_code(OutgoingPacketType::TimeFollowUp),
            timestamp_bytes(sent_sync),
        ),
        TimeSyncPhase::AwaitingDelayRequest => action is AwaitDelayRequest,
        TimeSyncPhase::ReadingRequestClock => action is ReadClock,
        TimeSyncPhase::SendingDelayResp { received_delay_request } => action matches TimeSyncAction::Send(p)
            && p@ == filled_packet(
            outgoing_code(OutgoingPacketType::TimeDelayResp),
            timestamp_bytes(received_delay_request),
        ),
        TimeSyncPhase::Resting => action matches TimeSyncAction::Sleep(ms) && ms
            == ROUND_INTERVAL_MILLIS,
    }
}

/// The action the caller must perform while the round is in `phase`.
pub fn pending_action(phase: TimeSyncPhase) -> (action: TimeSyncAction)
    ensures
        is_pending_action(phase, action),
{
    match phase {
        TimeSyncPhase::ReadingSyncClock => TimeSyncAction::ReadClock,
        TimeSyncPhase::SendingSync { .. } => TimeSyncAction::Send(time_sync_packet()),
        TimeSyncPhase::PausingBeforeFollowUp { .. } => TimeSyncAction::Sleep(FOLLOW_UP_DELAY_MILLIS),
        TimeSyncPhase::SendingFollowUp { sent_sync } => TimeSyncAction::Send(
            time_follow_up_packet(sent_sync),
        ),
        TimeSyncPhase::AwaitingDelayRequest => TimeSyncAction::AwaitDelayRequest,
        TimeSyncPhase::ReadingRequestClock => TimeSyncAction::ReadClock,
        TimeSyncPhase::SendingDelayResp { received_delay_request } => TimeSyncAction::Send(
            time_delay_resp_packet(received_delay_request),
        ),
        TimeSyncPhase::Resting => TimeSyncAction::Sleep(ROUND_INTERVAL_MILLIS),
    }
}

/// Where a round starts, and the first action.
pub fn time_control_start() -> (r: (TimeSyncPhase, TimeSyncAction))
    ensures
        r.0 == TimeSyncPhase::ReadingSyncClock,
        is_pending_action(r.0, r.1),
{
    (TimeSyncPhase::ReadingSyncClock, TimeSyncAction::ReadClock)
}

/// Moves the round on by what came of the last action, and returns the
/// action that the new phase asks for.
pub fn time_control_step(phase: TimeSyncPhase, event: TimeSyncEvent) -> (r: (
    TimeSyncPhase,
    TimeSyncAction,
))
    ensures
        r.0 == next_phase(phase, event),
        is_pending_action(r.0, r.1),
{
    let next = match (phase, event) {
        (TimeSyncPhase::ReadingSyncClock, TimeSyncEvent::Clock(t)) => TimeSyncPhase::SendingSync {
            sent_sync: t,
        },
        (TimeSyncPhase::SendingSync { sent_sync }, TimeSyncEvent::Sent) => {
            TimeSyncPhase::PausingBeforeFollowUp { sent_sync }
        },
        (TimeSyncPhase::PausingBeforeFollowUp { sent_sync }, TimeSyncEvent::Slept) => {
            TimeSyncPhase::SendingFollowUp { sent_sync }
        },
        (TimeSyncPhase::SendingFollowUp { .. }, TimeSyncEvent::Sent) => {
            TimeSyncPhase::AwaitingDelayRequest
        },
        (TimeSyncPhase::AwaitingDelayRequest, TimeSyncEvent::DelayRequested) => {
            TimeSyncPhase::ReadingRequestClock
        },
        (TimeSyncPhase::ReadingRequestClock, TimeSyncEvent::Clock(t)) => {
            TimeSyncPhase::SendingDelayResp { received_delay_request: t }
        },
        (TimeSyncPhase::SendingDelayResp { .. }, TimeSyncEvent::Sent) => TimeSyncPhase::Resting,
        (TimeSyncPhase::Resting, TimeSyncEvent::Slept) => TimeSyncPhase::ReadingSyncClock,
        _ => phase,
    };
    (next, pending_action(next))
}

/// A round run as the caller is meant to run it: from the start, with the
/// clock read at `sent_sync` before the sync packet and at
/// `received_delay_request` after the device's request. It sends the sync
/// packet, then a follow-up carrying `sent_sync`, then a delay response
/// carrying `received_delay_request`, pausing and resting as it should, and
/// ends where it began.
pub proof fn lemma_round(sent_sync: Timestamp, received_delay_request: Timestamp)
    ensures
        ({
            let p1 = next_phase(TimeSyncPhase::ReadingSyncClock, TimeSyncEvent::Clock(sent_sync));
            let p2 = next_phase(p1, TimeSyncEvent::Sent);
            let p3 = next_phase(p2, TimeSyncEvent::Slept);
            let p4 = next_phase(p3, TimeSyncEvent::Sent);
            let p5 = next_phase(p4, TimeSyncEvent::DelayRequested);
            let p6 = next_phase(p5, TimeSyncEvent::Clock(received_delay_request));
            let p7 = next_phase(p6, TimeSyncEvent::Sent);
            let p8 = next_phase(p7, TimeSyncEvent::Slept);
            &&& forall|a: TimeSyncAction|
                is_pending_action(p1, a) <==> (a matches TimeSyncAction::Send(p) && p@
                    == filled_packet(outgoing_code(OutgoingPacketType::TimeSync), Seq::empty()))
            &&& forall|a: TimeSyncAction|
                is_pending_action(p2, a) <==> (a matches TimeSyncAction::Sleep(ms) && ms
                    == FOLLOW_UP_DELAY_MILLIS)
            &&& forall|a: TimeSyncAction|
                is_pending_action(p3, a) <==> (a matches TimeSyncAction::Send(p) && p@
                    == filled_packet(
                    outgoing_code(OutgoingPacketType::TimeFollowUp),
                    timestamp_bytes(sent_sync),
                ))
            &&& forall|a: TimeSyncAction| is_pending_action(p4, a) <==> a is AwaitDelayRequest
            &&& forall|a: TimeSyncAction| is_pending_action(p5, a) <==> a is ReadClock
            &&& forall|a: TimeSyncAction|
                is_pending_action(p6, a) <==> (a matches TimeSyncAction::Send(p) && p@
                    == filled_packet(
                    outgoing_code(OutgoingPacketType::TimeDelayResp),
                    timestamp_bytes(received_delay_request),
                ))
            &&& forall|a: TimeSyncAction|
                is_pending_action(p7, a) <==> (a matches TimeSyncAction::Sleep(ms) && ms
                    == ROUND_INTERVAL_MILLIS)
            &&& p8 == TimeSyncPhase::ReadingSyncClock
        }),
{
}

} // verus!
