use super::midi_message::MidiMessage;
use vstd::prelude::*;

verus! {

/// Defines a generic MIDI receiver, e.g. an instrument or effect that can
/// process MIDI.
pub trait MidiReceiver: Send {
    /// What this receiver makes of a message: whether `after` is the receiver
    /// once it has handled `message`. Each receiver says so for itself.
    spec fn handled(&self, message: MidiMessage, after: &Self) -> bool;

    /// Handles a MIDI message.
    fn handle_midi_message(&mut self, message: MidiMessage)
        ensures
            old(self).handled(message, final(self)),
    ;
}

} // verus!
