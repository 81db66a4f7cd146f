use vstd::prelude::*;

verus! {

/// Defines a sound that can be played by a sampler voice, e.g. an oscillator
/// config or audio file data.
pub trait SamplerSound: Send + Sync + Sized {
    /// Whether the sound is meant for this note played at this velocity.
    spec fn applies_to(&self, midi_note: u8, midi_velocity: u8) -> bool;

    /// Returns whether sound applies to given midi note and velocity.
    fn applies_to_note(&self, midi_note: u8, midi_velocity: u8) -> (applies: bool)
        ensures
            applies == self.applies_to(midi_note, midi_velocity),
    ;
}

} // verus!
