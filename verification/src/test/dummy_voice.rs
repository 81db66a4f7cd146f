use crate::base::FloatBits;
use crate::processing::{AdsrStage, SamplerSound, SamplerVoice, VoiceState};
use std::sync::Arc;
use vstd::prelude::*;

verus! {

/// Dummy sampler voice for testing purposes. It follows the note lifecycle
/// and holds nothing to render with.
pub struct DummyVoice {
    active_note: Option<u8>,
    key_down: bool,
    priority: u32,
    stage: Option<AdsrStage>,
}

impl DummyVoice {
    /// Creates a dummy voice: idle, its key up, its envelope inactive.
    pub fn new() -> (voice: Self)
        ensures
            voice.state() == (VoiceState::<DummySound> {
                binding: None,
                key_down: false,
                priority: 0,
                stage: None,
            }),
    {
        DummyVoice { active_note: None, key_down: false, priority: 0, stage: None }
    }

    /// Stage of the envelope; `None` while the envelope is inactive.
    pub fn stage(&self) -> (stage: Option<AdsrStage>)
        ensures
            stage == self.state().stage,
    {
        self.stage
    }
}

impl SamplerVoice<DummySound> for DummyVoice {
    closed spec fn state(&self) -> VoiceState<DummySound> {
        VoiceState {
            binding: match self.active_note {
                Some(note) => Some((DummySound {  }, note)),
                None => None,
            },
            key_down: self.key_down,
            priority: self.priority,
            stage: self.stage,
        }
    }

    fn get_active_note(&self) -> (note: Option<u8>) {
        self.active_note
    }

    fn get_priority(&self) -> (priority: u32) {
        self.priority
    }

    fn is_key_down(&self) -> (key_down: bool) {
        self.key_down
    }

    fn is_playing(&self) -> (playing: bool) {
        self.active_note.is_some()
    }

    fn reset(&mut self, _sample_rate: FloatBits, _max_buffer_size: usize) {
        self.active_note = None;
        self.stage = None;
    }

    fn set_key_down(&mut self, key_down: bool) {
        self.key_down = key_down
    }

    fn start_note(
        &mut self,
        midi_note: u8,
        _velocity: u8,
        _sound: Arc<DummySound>,
        initial_priority: u32,
    ) {
        self.active_note = Some(midi_note);
        self.priority = initial_priority;
        self.stage = Some(AdsrStage::Attack);
    }

    fn stop_note(&mut self, _velocity: u8, allow_tail: bool) {
        if allow_tail {
            self.stage = Some(AdsrStage::Release);
        } else {
            self.active_note = None;
        }
    }
}

/// Dummy sampler sound for testing purposes. It applies to every note.
pub struct DummySound {}

impl DummySound {
    /// Creates the dummy sound.
    pub fn new() -> (sound: Self)
        ensures
            sound == (DummySound {  }),
    {
        DummySound {  }
    }
}

impl SamplerSound for DummySound {
    open spec fn applies_to(&self, midi_note: u8, midi_velocity: u8) -> bool {
        true
    }

    fn applies_to_note(&self, _midi_note: u8, _midi_velocity: u8) -> (applies: bool) {
        true
    }
}

} // verus!
