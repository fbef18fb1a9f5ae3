//! Decisions of the main control link: what to do with a packet from the
//! device, and when the device counts as gone.

use crate::protocol::{incoming_from_code, IncomingPacketType};
use vstd::prelude::*;

verus! {

/// The size of a packet received from the device.
pub const RECEIVE_PACKET_SIZE: usize = 256;

/// How long the device may stay silent before the process restarts, in
/// seconds.
pub const KEEPALIVE_TIMEOUT_SECS: u64 = 15;

/// What to do with a packet received from the device.
#[derive(Debug, Clone, Copy, PartialEq, Eq, Structural)]
pub enum ReceiverAction {
    /// The type byte names no packet kind: warn and drop it.
    Ignore,
    /// Note that the device is alive.
    Keepalive,
    /// Note that the device is alive, and let the time round answer its
    /// delay request.
    KeepaliveAndTimeRequest,
}

/// The action for a packet whose type byte is `first_byte`.
pub open spec fn spec_receiver_action(first_byte: u8) -> ReceiverAction {
    match incoming_from_code(first_byte) {
        Ok(IncomingPacketType::Keepalive) => ReceiverAction::Keepalive,
        Ok(IncomingPacketType::TimeDelayReq) => ReceiverAction::KeepaliveAndTimeRequest,
        Err(_) => ReceiverAction::Ignore,
    }
}

/// Decides what to do with a packet received from the device, by its type
/// byte.
pub fn receiver_action(first_byte: u8) -> (action: ReceiverAction)
    ensures
        action == spec_receiver_action(first_byte),
{
    match IncomingPacketType::try_from(first_byte) {
        Ok(IncomingPacketType::Keepalive) => ReceiverAction::Keepalive,
        Ok(IncomingPacketType::TimeDelayReq) => ReceiverAction::KeepaliveAndTimeRequest,
        Err(_) => ReceiverAction::Ignore,
    }
}

/// How a wait of `KEEPALIVE_TIMEOUT_SECS` for the next sign of life ended.
#[derive(Debug, Clone, Copy, PartialEq, Eq, Structural)]
pub enum KeepaliveWait {
    /// A sign of life came.
    Received,
    /// The channel the signs of life come through is closed.
    Closed,
    /// Nothing came in time.
    TimedOut,
}

/// What the watchdog does after a wait.
#[derive(Debug, Clone, Copy, PartialEq, Eq, Structural)]
pub enum WatchdogAction {
    /// Wait again.
    Continue,
    /// Replace the process by a fresh copy of itself.
    Restart,
}

/// Decides what the watchdog does after a wait: it restarts the process
/// exactly when nothing came in time.
pub fn watchdog_action(wait: KeepaliveWait) -> (action: WatchdogAction)
    ensures
        action == (if wait == KeepaliveWait::TimedOut {
            WatchdogAction::Restart
        } else {
            WatchdogAction::Continue
        }),
{
    match wait {
        KeepaliveWait::TimedOut => WatchdogAction::Restart,
        _ => WatchdogAction::Continue,
    }
}

} // verus!
