use super::sampler_sound::SamplerSound;
use vstd::prelude::*;

verus! {

/// Oscillator sound for sampler. It applies to every note.
pub struct OscillatorSound {}

impl OscillatorSound {
    /// Creates new oscillator sound.
    pub fn new() -> (sound: Self)
        ensures
            sound == (OscillatorSound {  }),
    {
        OscillatorSound {  }
    }
}

impl SamplerSound for OscillatorSound {
    open spec fn applies_to(&self, midi_note: u8, midi_velocity: u8) -> bool {
        true
    }

    fn applies_to_note(&self, _midi_note: u8, _midi_velocity: u8) -> (applies: bool) {
        true
    }
}

} // verus!
