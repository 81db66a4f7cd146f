//! Polyphonic sampler: sounds, voices and the scheduler that joins them.

pub mod audio_file_sound;
pub mod audio_file_voice;
pub mod laws;
pub mod linear_adsr;
pub mod model;
pub mod oscillator_sound;
pub mod oscillator_voice;
pub mod sampler_sound;
pub mod sampler_voice;

use crate::base::{
    AudioProcessor, FloatBits, MidiMessage, MidiReceiver, Parameter, ParameterId, ParameterValue,
};
pub use audio_file_sound::{AdsrTimes, AudioFileSound, AudioFileSoundView, MidiRegion};
pub use audio_file_voice::AudioFileVoice;
pub use linear_adsr::{AdsrStage, LinearAdsr};
pub use model::SamplerState;
use model::{ALL_NOTES_OFF, PEDAL_THRESHOLD, SUSTAIN_PEDAL};
pub use oscillator_sound::OscillatorSound;
pub use oscillator_voice::OscillatorVoice;
pub use sampler_sound::SamplerSound;
pub use sampler_voice::{SamplerVoice, VoiceState};
use std::sync::Arc;
use vstd::prelude::*;

verus! {

/// Another handle to a shared sound.
///
/// Wraps `std::sync::Arc::clone`, which makes another pointer to the same
/// allocation. The claim is that the sound behind the new handle is the sound
/// behind the old one.
#[verifier::external_body]
fn share<S>(sound: &Arc<S>) -> (shared: Arc<S>)
    ensures
        shared == *sound,
{
    Arc::clone(sound)
}

/// Sampler instrument processor.
pub struct Sampler<S, V> where S: SamplerSound, V: SamplerVoice<S> {
    /// Number of output channels.
    channel_count: u16,
    /// Longest block, in frames, that the last reset prepared for.
    max_buffer_size: usize,
    /// Next voice priority.
    next_voice_priority: u32,
    /// Sampler sounds.
    sounds: Vec<Arc<S>>,
    /// Sustain pedal state.
    sustain_pedal_pressed: bool,
    /// Sampler voices.
    voices: Vec<V>,
}

impl<S: SamplerSound, V: SamplerVoice<S>> View for Sampler<S, V> {
    type V = SamplerState<S>;

    closed spec fn view(&self) -> SamplerState<S> {
        SamplerState {
            sounds: Seq::new(self.sounds@.len(), |i: int| *self.sounds@[i]),
            voices: model::states_of::<S, V>(self.voices@),
            sustain_pedal_pressed: self.sustain_pedal_pressed,
            next_voice_priority: self.next_voice_priority,
            channel_count: self.channel_count,
            max_buffer_size: self.max_buffer_size,
        }
    }
}

impl<S: SamplerSound, V: SamplerVoice<S>> Sampler<S, V> {
    /// A pass over the pool has reached voice `done`: the voices before it
    /// are in the states `target`, the others are as in `before`, and so is
    /// everything but the voices.
    spec fn voices_done(&self, before: &Self, target: Seq<VoiceState<S>>, done: int) -> bool {
        &&& 0 <= done <= self.voices.len() == before.voices.len() == target.len()
        &&& self.sounds == before.sounds
        &&& self.sustain_pedal_pressed == before.sustain_pedal_pressed
        &&& self.next_voice_priority == before.next_voice_priority
        &&& self.channel_count == before.channel_count
        &&& self.max_buffer_size == before.max_buffer_size
        &&& forall|j: int| 0 <= j < done ==> (#[trigger] self.voices[j]).state() == target[j]
        &&& forall|j: int| done <= j < self.voices.len() ==> self.voices[j] == before.voices[j]
    }

    /// Creates new sampler.
    pub fn new() -> (sampler: Self)
        ensures
            sampler@ == SamplerState::<S>::empty(),
    {
        let sampler = Sampler {
            channel_count: 0,
            max_buffer_size: 0,
            next_voice_priority: 0,
            sounds: Vec::new(),
            sustain_pedal_pressed: false,
            voices: Vec::new(),
        };
        assert(sampler@.sounds =~= Seq::empty());
        assert(sampler@.voices =~= Seq::empty());
        sampler
    }

    /// Adds a sound.
    pub fn add_sound(&mut self, sound: S)
        ensures
            final(self)@ == (SamplerState { sounds: old(self)@.sounds.push(sound), ..old(self)@ }),
    {
        self.sounds.push(Arc::new(sound));
        assert(self@.sounds =~= old(self)@.sounds.push(sound));
        assert(self@.voices =~= old(self)@.voices);
    }

    /// Adds a voice.
    pub fn add_voice(&mut self, voice: V)
        ensures
            final(self)@ == (SamplerState {
                voices: old(self)@.voices.push(voice.state()),
                ..old(self)@
            }),
    {
        self.voices.push(voice);
        assert(self@.voices =~= old(self)@.voices.push(voice.state()));
        assert(self@.sounds =~= old(self)@.sounds);
    }

    /// All notes off (usually triggered by a MIDI message).
    pub fn all_notes_off(&mut self, allow_tail: bool)
        ensures
            final(self)@ == old(self)@.all_notes_off(allow_tail),
    {
        let ghost target = model::all_stopped(old(self)@.voices, allow_tail);
        let mut i: usize = 0;
        while i < self.voices.len()
            invariant
                self.voices_done(old(self), target, i as int),
                target == model::all_stopped(old(self)@.voices, allow_tail),
            decreases self.voices.len() - i,
        {
            self.voices[i].stop_note(0, allow_tail);
            i += 1;
        }
        assert(self@.voices =~= target);
    }

    /// Handles sustain pedal (usually triggered by a MIDI message).
    ///
    /// The pedal state is stored. When the pedal is lifted, every playing
    /// voice whose key is no longer held enters its release at once.
    pub fn sustain_pedal(&mut self, pressed: bool)
        ensures
            final(self)@ == old(self)@.sustain_pedal(pressed),
            !pressed ==> forall|i: int|
                #![trigger final(self)@.voices[i]]
                0 <= i < old(self)@.voices.len() && old(self)@.voices[i].is_playing()
                    && !old(self)@.voices[i].key_down ==> final(self)@.voices[i].stage == Some(
                    AdsrStage::Release,
                ),
    {
        self.sustain_pedal_pressed = pressed;
        if !pressed {
            let ghost before = *self;
            let ghost target = model::unsustained(old(self)@.voices);
            let mut i: usize = 0;
            while i < self.voices.len()
                invariant
                    self.voices_done(&before, target, i as int),
                    target == model::unsustained(before@.voices),
                decreases self.voices.len() - i,
            {
                if self.voices[i].is_playing() && !self.voices[i].is_key_down() {
                    self.voices[i].stop_note(0, true);
                }
                i += 1;
            }
            assert(self@.voices =~= target);
        }
    }

    /// Note off (usually triggered by a MIDI message).
    ///
    /// Every voice that plays the note has its key released. Unless the
    /// sustain pedal is held, such a voice also enters its release; while the
    /// pedal is held, its envelope stays in the stage it was in.
    pub fn note_off(&mut self, _midi_channel: u8, midi_note: u8, velocity: u8)
        ensures
            final(self)@ == old(self)@.note_off(midi_note),
            forall|i: int|
                #![trigger final(self)@.voices[i]]
                0 <= i < old(self)@.voices.len() && old(self)@.voices[i].active_note() == Some(
                    midi_note,
                ) ==> {
                    &&& !final(self)@.voices[i].key_down
                    &&& final(self)@.voices[i].stage == if old(self)@.sustain_pedal_pressed {
                        old(self)@.voices[i].stage
                    } else {
                        Some(AdsrStage::Release)
                    }
                },
    {
        let ghost target = model::released(
            old(self)@.voices,
            midi_note,
            old(self)@.sustain_pedal_pressed,
        );
        let mut i: usize = 0;
        while i < self.voices.len()
            invariant
                self.voices_done(old(self), target, i as int),
                target == model::released(
                    old(self)@.voices,
                    midi_note,
                    old(self)@.sustain_pedal_pressed,
                ),
            decreases self.voices.len() - i,
        {
            let active: Option<u8> = self.voices[i].get_active_note();
            let plays_note: bool = match active {
                Some(note) => note == midi_note,
                None => false,
            };
            if plays_note {
                self.voices[i].set_key_down(false);
                if !self.sustain_pedal_pressed {
                    self.voices[i].stop_note(velocity, true);
                }
            }
            i += 1;
        }
        assert(self@.voices =~= target);
    }

    /// Picks the voice for the next note: the first idle voice, or, where
    /// every voice is playing, the oldest one (the first of them on a tie).
    fn pick_voice(&self) -> (index: usize)
        requires
            self@.voices.len() > 0,
        ensures
            index < self@.voices.len(),
            index as int == model::allocation(self@.voices),
    {
        let ghost states = self@.voices;
        let mut oldest: usize = 0;
        let mut lowest: u32 = self.voices[0].get_priority();
        let mut i: usize = 0;
        while i < self.voices.len()
            invariant
                states == self@.voices,
                0 < self.voices.len(),
                i <= self.voices.len(),
                oldest < self.voices.len(),
                i == 0 ==> oldest == 0,
                i > 0 ==> oldest < i,
                lowest == states[oldest as int].priority,
                forall|j: int| 0 <= j < i ==> (#[trigger] states[j]).is_playing(),
                forall|j: int| 0 <= j < i ==> lowest <= (#[trigger] states[j]).priority,
                forall|j: int| 0 <= j < oldest ==> lowest < (#[trigger] states[j]).priority,
            decreases self.voices.len() - i,
        {
            if !self.voices[i].is_playing() {
                proof {
                    assert(model::is_first_idle(states, i as int));
                    model::lemma_allocation_unique(states, i as int);
                }
                return i;
            }
            let priority: u32 = self.voices[i].get_priority();
            if priority < lowest {
                lowest = priority;
                oldest = i;
            }
            i += 1;
        }
        proof {
            assert(model::is_oldest(states, oldest as int));
            model::lemma_allocation_unique(states, oldest as int);
        }
        oldest
    }

    /// Note on (usually triggered by a MIDI message).
    ///
    /// Without a sound or without a voice nothing happens. Otherwise every
    /// voice that still plays the note is unbound, and then each sound that
    /// applies to the note and velocity, in the order in which the sounds were
    /// added, gets a voice: the first idle one, else the oldest. That voice
    /// starts the note with the current stamp and its key held, and the stamp
    /// counter advances, wrapping around.
    pub fn note_on(&mut self, _midi_channel: u8, midi_note: u8, midi_velocity: u8)
        ensures
            final(self)@ == old(self)@.note_on(midi_note, midi_velocity),
    {
        if self.sounds.len() == 0 || self.voices.len() == 0 {
            return ;
        }
        // If hitting a note that's still ringing, stop it first.

        let ghost quiet = model::silenced(old(self)@.voices, midi_note);
        let mut i: usize = 0;
        while i < self.voices.len()
            invariant
                self.voices_done(old(self), quiet, i as int),
                quiet == model::silenced(old(self)@.voices, midi_note),
            decreases self.voices.len() - i,
        {
            let active: Option<u8> = self.voices[i].get_active_note();
            let plays_note: bool = match active {
                Some(note) => note == midi_note,
                None => false,
            };
            if plays_note {
                self.voices[i].stop_note(0, false);
            }
            i += 1;
        }
        let ghost sounds = old(self)@.sounds;
        let ghost first_stamp = old(self)@.next_voice_priority;
        assert(self@.voices =~= quiet);

        // Start one voice for each matching sound.
        let mut k: usize = 0;
        while k < self.sounds.len()
            invariant
                k <= self.sounds.len(),
                0 < self.voices.len() == old(self).voices.len(),
                self.sounds == old(self).sounds,
                sounds == self@.sounds,
                self.sustain_pedal_pressed == old(self).sustain_pedal_pressed,
                self.channel_count == old(self).channel_count,
                self.max_buffer_size == old(self).max_buffer_size,
                (self@.voices, self@.next_voice_priority) == model::layered(
                    quiet,
                    first_stamp,
                    sounds.take(k as int),
                    midi_note,
                    midi_velocity,
                ),
            decreases self.sounds.len() - k,
        {
            let ghost before = self@.voices;
            let ghost current = self@.next_voice_priority;
            assert(sounds.take(k + 1).drop_last() =~= sounds.take(k as int));
            if self.sounds[k].applies_to_note(midi_note, midi_velocity) {
                // Find free voice or steal voice based on priority.
                let v: usize = self.pick_voice();
                let sound: Arc<S> = share(&self.sounds[k]);
                self.voices[v].start_note(
                    midi_note,
                    midi_velocity,
                    sound,
                    self.next_voice_priority,
                );
                self.voices[v].set_key_down(true);
                // Newer note will be more important.
                self.next_voice_priority = if self.next_voice_priority == u32::MAX {
                    0
                } else {
                    self.next_voice_priority + 1
                };
                assert(self@.voices =~= before.update(
                    v as int,
                    before[v as int].started(midi_note, sounds[k as int], current).with_key_down(
                        true,
                    ),
                ));
            } else {
                assert(self@.voices =~= before);
            }
            k += 1;
        }
        assert(sounds.take(k as int) =~= sounds);
    }

    /// The number of frames in an output block of `samples` interleaved
    /// samples, or `None` where the sampler cannot render such a block: no
    /// channel layout was set yet, or the block is longer than the last reset
    /// prepared for.
    pub fn frame_count(&self, samples: usize) -> (frames: Option<usize>)
        ensures
            frames == self@.frame_count(samples),
    {
        if self.channel_count == 0 {
            return None;
        }
        let frames: usize = samples / (self.channel_count as usize);
        if frames <= self.max_buffer_size {
            Some(frames)
        } else {
            None
        }
    }

    /// Number of output channels.
    pub fn channel_count(&self) -> (count: u16)
        ensures
            count == self@.channel_count,
    {
        self.channel_count
    }

    /// Longest block, in frames, that the last reset prepared for.
    pub fn max_buffer_size(&self) -> (frames: usize)
        ensures
            frames == self@.max_buffer_size,
    {
        self.max_buffer_size
    }

    /// Whether the sustain pedal is held.
    pub fn is_sustain_pedal_pressed(&self) -> (pressed: bool)
        ensures
            pressed == self@.sustain_pedal_pressed,
    {
        self.sustain_pedal_pressed
    }

    /// The voices, in pool order.
    pub fn voices(&self) -> (voices: &Vec<V>)
        ensures
            model::states_of::<S, V>(voices@) == self@.voices,
    {
        &self.voices
    }

    /// The voices, for whoever renders them. What the caller leaves in the
    /// pool is what the sampler schedules from then on.
    pub fn voices_mut(&mut self) -> (voices: &mut Vec<V>)
        ensures
            model::states_of::<S, V>(voices@) == old(self)@.voices,
            final(self)@ == (SamplerState {
                voices: model::states_of::<S, V>(final(voices)@),
                ..old(self)@
            }),
    {
        &mut self.voices
    }

    /// The sounds, in the order in which they were added.
    pub fn sounds(&self) -> (sounds: &Vec<Arc<S>>)
        ensures
            sounds@.len() == self@.sounds.len(),
            forall|i: int| 0 <= i < sounds@.len() ==> *(#[trigger] sounds@[i]) == self@.sounds[i],
    {
        &self.sounds
    }
}

impl<S: SamplerSound, V: SamplerVoice<S>> MidiReceiver for Sampler<S, V> {
    open spec fn handled(&self, message: MidiMessage, after: &Self) -> bool {
        after@ == self@.handle(message)
    }

    fn handle_midi_message(&mut self, message: MidiMessage) {
        match message {
            MidiMessage::ControlChange(_, controller, value) => {
                if controller == SUSTAIN_PEDAL {
                    self.sustain_pedal(value >= PEDAL_THRESHOLD);
                } else if controller == ALL_NOTES_OFF {
                    self.all_notes_off(true);
                }
            },
            MidiMessage::NoteOff(channel, note, velocity) => {
                self.note_off(channel, note, velocity);
            },
            MidiMessage::NoteOn(channel, note, velocity) => {
                if velocity == 0 {
                    // MIDI running status.
                    self.note_off(channel, note, 0);
                } else {
                    self.note_on(channel, note, velocity);
                }
            },
        }
    }
}

impl<S: SamplerSound, V: SamplerVoice<S>> AudioProcessor for Sampler<S, V> {
    /// A sampler has no parameter.
    open spec fn parameter(&self, id: ParameterId) -> Option<ParameterValue> {
        None
    }

    /// A sampler has no parameter.
    open spec fn parameters(&self) -> Seq<Parameter> {
        Seq::empty()
    }

    open spec fn was_reset(
        &self,
        sample_rate: FloatBits,
        max_buffer_size: usize,
        after: &Self,
    ) -> bool {
        after@ == self@.reset(max_buffer_size)
    }

    open spec fn layout_set(
        &self,
        input_channels: u16,
        output_channels: u16,
        after: &Self,
    ) -> bool {
        after@ == (SamplerState { channel_count: output_channels, ..self@ })
    }

    /// Setting a parameter changes nothing.
    open spec fn parameter_set(
        &self,
        id: ParameterId,
        value: ParameterValue,
        after: &Self,
    ) -> bool {
        after@ == self@
    }

    fn get_parameter(&self, _id: ParameterId) -> (value: Option<ParameterValue>) {
        None
    }

    fn list_parameters(&self) -> (list: &[Parameter]) {
        let list: &[Parameter] = &[];
        list
    }

    fn reset(&mut self, sample_rate: FloatBits, max_buffer_size: usize) {
        self.max_buffer_size = max_buffer_size;
        let ghost before = *self;
        let ghost target = model::all_cleared(old(self)@.voices);
        let mut i: usize = 0;
        while i < self.voices.len()
            invariant
                self.voices_done(&before, target, i as int),
                target == model::all_cleared(before@.voices),
            decreases self.voices.len() - i,
        {
            self.voices[i].reset(sample_rate, max_buffer_size);
            i += 1;
        }
        assert(self@.voices =~= target);
    }

    fn set_channel_layout(&mut self, _input_channels: u16, output_channels: u16) {
        self.channel_count = output_channels;
    }

    fn set_parameter(&mut self, _id: ParameterId, _value: ParameterValue) {
    }
}

} // verus!
