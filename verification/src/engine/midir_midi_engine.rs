use crate::base::{MidiMessage, MidiReceiver};
use vstd::prelude::*;

verus! {

/// Hands the raw bytes of a MIDI input to a receiver: bytes that parse to a
/// message are handled as that message, and all other bytes are dropped.
/// Returns whether the receiver was handed a message.
pub fn receive<R: MidiReceiver>(receiver: &mut R, bytes: &[u8]) -> (handled: bool)
    ensures
        match MidiMessage::parse(bytes@) {
            Some(message) => handled && old(receiver).handled(message, final(receiver)),
            None => !handled && *final(receiver) == *old(receiver),
        },
{
    match MidiMessage::from_bytes(bytes) {
        Some(message) => {
            receiver.handle_midi_message(message);
            true
        },
        None => false,
    }
}

} // verus!
