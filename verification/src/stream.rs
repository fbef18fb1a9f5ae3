//! Switching the device to the frame stream.

use crate::protocol::{
    filled_packet, outgoing_code, state_change_packet, state_code, OutgoingPacketType, State,
};
use vstd::prelude::*;

verus! {

/// Installs `stream` as the stream being played, replacing any earlier one,
/// and returns the packet that switches the device to showing it.
pub fn start_stream<T>(playback_stream: &mut Option<T>, stream: T) -> (packet: [u8; 64])
    ensures
        *final(playback_stream) == Some(stream),
        packet@ == filled_packet(
            outgoing_code(OutgoingPacketType::StateChange),
            seq![state_code(State::Stream)],
        ),
{
    *playback_stream = Some(stream);
    state_change_packet(State::Stream)
}

} // verus!
