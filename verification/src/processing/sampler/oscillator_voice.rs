use super::linear_adsr::LinearAdsr;
use super::oscillator_sound::OscillatorSound;
use super::sampler_voice::{SamplerVoice, VoiceState};
use crate::base::FloatBits;
use std::sync::Arc;
use vstd::prelude::*;

verus! {

/// Oscillator voice for sampler: the note lifecycle of a voice that renders
/// an oscillator.
pub struct OscillatorVoice {
    /// Sound and MIDI note that is currently playing.
    active_sound: Option<(Arc<OscillatorSound>, u8)>,
    /// ADSR envelope.
    adsr: LinearAdsr,
    /// Key down state.
    key_down: bool,
    /// Voice priority.
    priority: u32,
    /// Whether a note was started that the renderer has not taken up yet.
    restarted: bool,
    /// MIDI velocity that the last note was started with.
    velocity: u8,
}

impl OscillatorVoice {
    /// Creates new oscillator voice: idle, its key up, its envelope inactive.
    pub fn new() -> (voice: Self)
        ensures
            voice.state() == (VoiceState::<OscillatorSound> {
                binding: None,
                key_down: false,
                priority: 0,
                stage: None,
            }),
            !voice.restarted(),
            voice.velocity() == 0,
    {
        OscillatorVoice {
            active_sound: None,
            adsr: LinearAdsr::new(),
            key_down: false,
            priority: 0,
            restarted: false,
            velocity: 0,
        }
    }

    /// Whether a note was started that the renderer has not taken up yet.
    pub closed spec fn restarted(&self) -> bool {
        self.restarted
    }

    /// MIDI velocity that the last note was started with.
    pub closed spec fn velocity(&self) -> u8 {
        self.velocity
    }

    /// Returns the MIDI velocity that the last note was started with.
    pub fn get_velocity(&self) -> (velocity: u8)
        ensures
            velocity == self.velocity(),
    {
        self.velocity
    }

    /// Tells the renderer whether a note was started since it last asked,
    /// and takes the question as answered: the next answer is no until
    /// another note starts. The note lifecycle is left as it is.
    pub fn take_restart(&mut self) -> (restarted: bool)
        ensures
            restarted == old(self).restarted(),
            !final(self).restarted(),
            final(self).state() == old(self).state(),
            final(self).velocity() == old(self).velocity(),
    {
        let restarted = self.restarted;
        self.restarted = false;
        restarted
    }

    /// ADSR envelope.
    pub fn adsr(&self) -> (adsr: &LinearAdsr)
        ensures
            adsr@ == self.state().stage,
    {
        &self.adsr
    }

    /// Closes one rendered frame. `spent` says whether the gain of the
    /// envelope fell to silence in this frame.
    ///
    /// The envelope advances by the frame. The note then ends, and the voice
    /// becomes idle, where the envelope is no longer active. Returns whether
    /// the voice is still playing.
    pub fn end_frame(&mut self, spent: bool) -> (playing: bool)
        ensures
            final(self).state() == old(self).state().after_frame(spent, false),
            playing == final(self).state().is_playing(),
            final(self).restarted() == old(self).restarted(),
            final(self).velocity() == old(self).velocity(),
    {
        self.adsr.next_sample(spent);
        if !self.adsr.is_active() {
            self.stop_note(0, false);
        }
        self.active_sound.is_some()
    }
}

impl SamplerVoice<OscillatorSound> for OscillatorVoice {
    closed spec fn state(&self) -> VoiceState<OscillatorSound> {
        VoiceState {
            binding: match self.active_sound {
                Some((sound, note)) => Some((*sound, note)),
                None => None,
            },
            key_down: self.key_down,
            priority: self.priority,
            stage: self.adsr@,
        }
    }

    fn get_active_note(&self) -> (note: Option<u8>) {
        match &self.active_sound {
            Some((_, note)) => Some(*note),
            None => None,
        }
    }

    fn get_priority(&self) -> (priority: u32) {
        self.priority
    }

    fn is_key_down(&self) -> (key_down: bool) {
        self.key_down
    }

    fn is_playing(&self) -> (playing: bool) {
        self.active_sound.is_some()
    }

    fn reset(&mut self, _sample_rate: FloatBits, _max_buffer_size: usize)
        ensures
            final(self).restarted() == old(self).restarted(),
            final(self).velocity() == old(self).velocity(),
    {
        self.active_sound = None;
        self.adsr.reset();
    }

    fn set_key_down(&mut self, key_down: bool)
        ensures
            final(self).restarted() == old(self).restarted(),
            final(self).velocity() == old(self).velocity(),
    {
        self.key_down = key_down;
    }

    fn start_note(
        &mut self,
        midi_note: u8,
        velocity: u8,
        sound: Arc<OscillatorSound>,
        initial_priority: u32,
    )
        ensures
            final(self).restarted(),
            final(self).velocity() == velocity,
    {
        self.active_sound = Some((sound, midi_note));
        self.adsr.note_on();
        self.priority = initial_priority;
        self.restarted = true;
        self.velocity = velocity;
    }

    fn stop_note(&mut self, _velocity: u8, allow_tail: bool)
        ensures
            final(self).restarted() == old(self).restarted(),
            final(self).velocity() == old(self).velocity(),
    {
        if allow_tail {
            self.adsr.note_off();
        } else {
            self.active_sound = None;
        }
    }
}

} // verus!
