use super::linear_adsr::AdsrStage;
use super::sampler_sound::SamplerSound;
use crate::base::FloatBits;
use std::sync::Arc;
use vstd::prelude::*;

verus! {

/// What a sampler knows of a voice: the note lifecycle that every kind of
/// voice shares, whatever it renders.
pub struct VoiceState<S> {
    /// Sound and MIDI note that the voice is playing; `None` while it is idle.
    pub binding: Option<(S, u8)>,
    /// Whether the key that started the note is still held.
    pub key_down: bool,
    /// Stamp given when the note started; the lowest stamp is stolen first.
    pub priority: u32,
    /// Stage of the envelope; `None` while the envelope is inactive.
    pub stage: Option<AdsrStage>,
}

impl<S> VoiceState<S> {
    /// The note being played, if any.
    pub open spec fn active_note(self) -> Option<u8> {
        match self.binding {
            Some((_, note)) => Some(note),
            None => None,
        }
    }

    /// A voice is playing exactly while it is bound to a sound.
    pub open spec fn is_playing(self) -> bool {
        self.binding is Some
    }

    /// Starting a note binds the sound and the note, records the stamp and
    /// puts the envelope into its attack. The key state is left alone.
    pub open spec fn started(self, midi_note: u8, sound: S, priority: u32) -> Self {
        VoiceState {
            binding: Some((sound, midi_note)),
            key_down: self.key_down,
            priority,
            stage: Some(AdsrStage::Attack),
        }
    }

    /// Stopping with a tail puts the envelope into its release and keeps the
    /// voice bound; stopping without one unbinds the voice at once.
    pub open spec fn stopped(self, allow_tail: bool) -> Self {
        if allow_tail {
            VoiceState { stage: Some(AdsrStage::Release), ..self }
        } else {
            VoiceState { binding: None, ..self }
        }
    }

    /// The same voice with the key state replaced.
    pub open spec fn with_key_down(self, key_down: bool) -> Self {
        VoiceState { key_down, ..self }
    }

    /// One rendered frame later. `spent` says whether the gain of the envelope
    /// fell to silence in the frame, `past_end` whether the sound ran out.
    /// An envelope in its release that is spent becomes inactive. The voice
    /// is then unbound where the sound ran out or the envelope is inactive.
    pub open spec fn after_frame(self, spent: bool, past_end: bool) -> Self {
        let stage = if self.stage == Some(AdsrStage::Release) && spent {
            None
        } else {
            self.stage
        };
        VoiceState {
            binding: if past_end || stage is None {
                None
            } else {
                self.binding
            },
            stage,
            ..self
        }
    }

    /// A reset unbinds the voice and makes its envelope inactive.
    pub open spec fn cleared(self) -> Self {
        VoiceState { binding: None, stage: None, ..self }
    }
}

/// Defines a voice that a sampler can use to play a sampler sound.
pub trait SamplerVoice<S: SamplerSound>: Send + Sized {
    /// The lifecycle state of the voice.
    spec fn state(&self) -> VoiceState<S>;

    /// Returns current MIDI note if playing, [None] otherwise.
    fn get_active_note(&self) -> (note: Option<u8>)
        ensures
            note == self.state().active_note(),
    ;

    /// Returns voice priority (used for voice stealing, voices with lower
    /// priority are stolen first).
    fn get_priority(&self) -> (priority: u32)
        ensures
            priority == self.state().priority,
    ;

    /// Returns key down state.
    fn is_key_down(&self) -> (key_down: bool)
        ensures
            key_down == self.state().key_down,
    ;

    /// Returns whether voice is currently in use.
    fn is_playing(&self) -> (playing: bool)
        ensures
            playing == self.state().is_playing(),
    ;

    /// Resets internal parameters of the voice.
    fn reset(&mut self, sample_rate: FloatBits, max_buffer_size: usize)
        ensures
            final(self).state() == old(self).state().cleared(),
    ;

    /// Sets key down state.
    fn set_key_down(&mut self, key_down: bool)
        ensures
            final(self).state() == old(self).state().with_key_down(key_down),
    ;

    /// Plays a note on this voice. The velocity is the MIDI velocity, from 0
    /// to 127.
    fn start_note(&mut self, midi_note: u8, velocity: u8, sound: Arc<S>, initial_priority: u32)
        ensures
            final(self).state() == old(self).state().started(midi_note, *sound, initial_priority),
    ;

    /// Stops note. The velocity is the MIDI velocity, from 0 to 127.
    fn stop_note(&mut self, velocity: u8, allow_tail: bool)
        ensures
            final(self).state() == old(self).state().stopped(allow_tail),
    ;
}

} // verus!
