//! Mathematical model of the sampler: the pool of voices as a sequence of
//! lifecycle states, and what each event makes of it.

use super::sampler_sound::SamplerSound;
use super::sampler_voice::{SamplerVoice, VoiceState};
use crate::base::MidiMessage;
use vstd::prelude::*;

verus! {

/// MIDI controller number of the sustain pedal.
pub const SUSTAIN_PEDAL: u8 = 0x40;

/// MIDI controller number of "all notes off".
pub const ALL_NOTES_OFF: u8 = 0x7B;

/// Lowest controller value that counts as a pressed pedal.
pub const PEDAL_THRESHOLD: u8 = 64;

/// The lifecycle states of a pool of voices, in pool order.
pub open spec fn states_of<S: SamplerSound, V: SamplerVoice<S>>(voices: Seq<V>) -> Seq<
    VoiceState<S>,
> {
    Seq::new(voices.len(), |i: int| voices[i].state())
}

/// The stamp that follows `stamp`: one more, starting over after the largest.
pub open spec fn next_stamp(stamp: u32) -> u32 {
    if stamp == u32::MAX {
        0
    } else {
        (stamp + 1) as u32
    }
}

/// Every voice that plays `note` is unbound at once; the others are left as
/// they are.
pub open spec fn silenced<S>(voices: Seq<VoiceState<S>>, note: u8) -> Seq<VoiceState<S>> {
    Seq::new(
        voices.len(),
        |i: int|
            if voices[i].active_note() == Some(note) {
                voices[i].stopped(false)
            } else {
                voices[i]
            },
    )
}

/// Every voice that plays `note` has its key released, and enters its release
/// unless the sustain pedal holds it.
pub open spec fn released<S>(voices: Seq<VoiceState<S>>, note: u8, pedal: bool) -> Seq<
    VoiceState<S>,
> {
    Seq::new(
        voices.len(),
        |i: int|
            if voices[i].active_note() == Some(note) {
                if pedal {
                    voices[i].with_key_down(false)
                } else {
                    voices[i].with_key_down(false).stopped(true)
                }
            } else {
                voices[i]
            },
    )
}

/// Every playing voice whose key is up enters its release.
pub open spec fn unsustained<S>(voices: Seq<VoiceState<S>>) -> Seq<VoiceState<S>> {
    Seq::new(
        voices.len(),
        |i: int|
            if voices[i].is_playing() && !voices[i].key_down {
                voices[i].stopped(true)
            } else {
                voices[i]
            },
    )
}

/// Every voice is stopped, with or without a tail.
pub open spec fn all_stopped<S>(voices: Seq<VoiceState<S>>, allow_tail: bool) -> Seq<
    VoiceState<S>,
> {
    Seq::new(voices.len(), |i: int| voices[i].stopped(allow_tail))
}

/// Every voice is reset.
pub open spec fn all_cleared<S>(voices: Seq<VoiceState<S>>) -> Seq<VoiceState<S>> {
    Seq::new(voices.len(), |i: int| voices[i].cleared())
}

/// `i` is the first voice of the pool that is idle.
pub open spec fn is_first_idle<S>(voices: Seq<VoiceState<S>>, i: int) -> bool {
    &&& 0 <= i < voices.len()
    &&& !voices[i].is_playing()
    &&& forall|j: int| 0 <= j < i ==> (#[trigger] voices[j]).is_playing()
}

/// `i` is the oldest voice of the pool: no voice has a lower stamp, and every
/// voice before it has a higher one.
pub open spec fn is_oldest<S>(voices: Seq<VoiceState<S>>, i: int) -> bool {
    &&& 0 <= i < voices.len()
    &&& forall|j: int|
        0 <= j < voices.len() ==> voices[i].priority <= (#[trigger] voices[j]).priority
    &&& forall|j: int| 0 <= j < i ==> voices[i].priority < (#[trigger] voices[j]).priority
}

/// Every voice of the pool is playing.
pub open spec fn all_playing<S>(voices: Seq<VoiceState<S>>) -> bool {
    forall|j: int| 0 <= j < voices.len() ==> (#[trigger] voices[j]).is_playing()
}

/// `i` is the voice that the next note gets: the first idle voice, or, where
/// every voice is playing, the oldest.
pub open spec fn is_allocation<S>(voices: Seq<VoiceState<S>>, i: int) -> bool {
    ||| is_first_idle(voices, i)
    ||| all_playing(voices) && is_oldest(voices, i)
}

/// The voice that the next note gets. A pool with at least one voice has
/// exactly one such voice, see [`lemma_allocation_unique`].
pub open spec fn allocation<S>(voices: Seq<VoiceState<S>>) -> int {
    choose|i: int| is_allocation(voices, i)
}

/// The pool and the stamp counter after one voice was started for each of
/// `sounds` that applies to the note, in the order of `sounds`. Each start
/// takes the current stamp, marks the key as held and advances the counter.
pub open spec fn layered<S: SamplerSound>(
    voices: Seq<VoiceState<S>>,
    stamp: u32,
    sounds: Seq<S>,
    note: u8,
    velocity: u8,
) -> (Seq<VoiceState<S>>, u32)
    decreases sounds.len(),
{
    if sounds.len() == 0 {
        (voices, stamp)
    } else {
        let (before, current) = layered(voices, stamp, sounds.drop_last(), note, velocity);
        let sound = sounds.last();
        if sound.applies_to(note, velocity) {
            let i = allocation(before);
            (
                before.update(i, before[i].started(note, sound, current).with_key_down(true)),
                next_stamp(current),
            )
        } else {
            (before, current)
        }
    }
}

/// A voice that is the allocation of a pool is the only one.
pub proof fn lemma_allocation_unique<S>(voices: Seq<VoiceState<S>>, i: int)
    requires
        is_allocation(voices, i),
    ensures
        allocation(voices) == i,
{
    let c = allocation(voices);
    assert(is_allocation(voices, c));
    if is_first_idle(voices, i) {
        if !is_first_idle(voices, c) {
            assert(voices[i].is_playing());
        }
        if c < i {
            assert(voices[c].is_playing());
        } else if i < c {
            assert(voices[i].is_playing());
        }
    } else {
        if is_first_idle(voices, c) {
            assert(voices[c].is_playing());
        }
        if c < i {
            assert(voices[i].priority < voices[c].priority);
            assert(voices[c].priority <= voices[i].priority);
        } else if i < c {
            assert(voices[c].priority < voices[i].priority);
            assert(voices[i].priority <= voices[c].priority);
        }
    }
}

/// What a sampler is, to its callers.
pub struct SamplerState<S> {
    /// The sounds, in the order in which they were added.
    pub sounds: Seq<S>,
    /// The lifecycle states of the voices, in pool order.
    pub voices: Seq<VoiceState<S>>,
    /// Whether the sustain pedal is held.
    pub sustain_pedal_pressed: bool,
    /// The stamp that the next started voice gets.
    pub next_voice_priority: u32,
    /// Number of output channels.
    pub channel_count: u16,
    /// Longest block, in frames, that the last reset prepared for.
    pub max_buffer_size: usize,
}

impl<S: SamplerSound> SamplerState<S> {
    /// A sampler without sounds or voices.
    pub open spec fn empty() -> Self {
        SamplerState {
            sounds: Seq::empty(),
            voices: Seq::empty(),
            sustain_pedal_pressed: false,
            next_voice_priority: 0,
            channel_count: 0,
            max_buffer_size: 0,
        }
    }

    /// Every voice is stopped, with or without a tail.
    pub open spec fn all_notes_off(self, allow_tail: bool) -> Self {
        SamplerState { voices: all_stopped(self.voices, allow_tail), ..self }
    }

    /// The pedal state is stored; lifting the pedal releases every playing
    /// voice whose key is up.
    pub open spec fn sustain_pedal(self, pressed: bool) -> Self {
        SamplerState {
            sustain_pedal_pressed: pressed,
            voices: if pressed {
                self.voices
            } else {
                unsustained(self.voices)
            },
            ..self
        }
    }

    /// The key of `note` goes up.
    pub open spec fn note_off(self, note: u8) -> Self {
        SamplerState { voices: released(self.voices, note, self.sustain_pedal_pressed), ..self }
    }

    /// The key of `note` goes down. Without a sound or a voice nothing
    /// happens. Otherwise the voices that still play the note are unbound,
    /// and each sound that applies gets a voice.
    pub open spec fn note_on(self, note: u8, velocity: u8) -> Self {
        if self.sounds.len() == 0 || self.voices.len() == 0 {
            self
        } else {
            let (voices, stamp) = layered(
                silenced(self.voices, note),
                self.next_voice_priority,
                self.sounds,
                note,
                velocity,
            );
            SamplerState { voices, next_voice_priority: stamp, ..self }
        }
    }

    /// What a MIDI message does: a note-on with velocity 0 counts as a
    /// note-off, controller `0x40` is the sustain pedal, pressed from value 64
    /// on, controller `0x7B` stops all notes with their tails, and every other
    /// controller is ignored.
    pub open spec fn handle(self, message: MidiMessage) -> Self {
        match message {
            MidiMessage::ControlChange(_, controller, value) => {
                if controller == SUSTAIN_PEDAL {
                    self.sustain_pedal(value >= PEDAL_THRESHOLD)
                } else if controller == ALL_NOTES_OFF {
                    self.all_notes_off(true)
                } else {
                    self
                }
            },
            MidiMessage::NoteOff(_, note, _) => self.note_off(note),
            MidiMessage::NoteOn(_, note, velocity) => {
                if velocity == 0 {
                    self.note_off(note)
                } else {
                    self.note_on(note, velocity)
                }
            },
        }
    }

    /// Every voice is reset and the block limit recorded.
    pub open spec fn reset(self, max_buffer_size: usize) -> Self {
        SamplerState { voices: all_cleared(self.voices), max_buffer_size, ..self }
    }

    /// The number of frames in an output block of `samples` samples, where the
    /// sampler can render such a block: a channel layout was set, and the
    /// block is no longer than the last reset prepared for.
    pub open spec fn frame_count(self, samples: usize) -> Option<usize> {
        if self.channel_count > 0 && samples / (self.channel_count as usize)
            <= self.max_buffer_size {
            Some(samples / (self.channel_count as usize))
        } else {
            None
        }
    }
}

} // verus!
