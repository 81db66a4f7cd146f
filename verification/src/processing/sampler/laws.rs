//! What holds of the scheduler whatever the pool and the events: counts of
//! voices, and the laws of note-on that follow from them.

use super::model::{self, SamplerState};
use super::sampler_sound::SamplerSound;
use super::linear_adsr::AdsrStage;
use super::sampler_voice::VoiceState;
use crate::base::MidiMessage;
use vstd::prelude::*;

verus! {

/// Number of voices that play `note`.
pub open spec fn voices_playing<S>(voices: Seq<VoiceState<S>>, note: u8) -> nat
    decreases voices.len(),
{
    if voices.len() == 0 {
        0
    } else {
        voices_playing(voices.drop_last(), note) + if voices.last().active_note() == Some(note) {
            1nat
        } else {
            0nat
        }
    }
}

/// Number of idle voices.
pub open spec fn idle_voices<S>(voices: Seq<VoiceState<S>>) -> nat
    decreases voices.len(),
{
    if voices.len() == 0 {
        0
    } else {
        idle_voices(voices.drop_last()) + if voices.last().is_playing() {
            0nat
        } else {
            1nat
        }
    }
}

/// Number of sounds that apply to a note played at a velocity.
pub open spec fn sounds_matching<S: SamplerSound>(sounds: Seq<S>, note: u8, velocity: u8) -> nat
    decreases sounds.len(),
{
    if sounds.len() == 0 {
        0
    } else {
        sounds_matching(sounds.drop_last(), note, velocity) + if sounds.last().applies_to(
            note,
            velocity,
        ) {
            1nat
        } else {
            0nat
        }
    }
}

/// Every playing voice has a stamp below `stamp`: the pool was stamped by a
/// counter that has not wrapped around since.
pub open spec fn stamps_below<S>(voices: Seq<VoiceState<S>>, stamp: int) -> bool {
    forall|i: int|
        0 <= i < voices.len() && (#[trigger] voices[i]).is_playing() ==> voices[i].priority < stamp
}

/// The stamps of a pool in which a note-on has started `started` voices on
/// `note`, from the stamp `stamp` on, without wrapping around: the voices that
/// play the note carry the stamps from `stamp` on, and every other playing
/// voice carries an earlier one.
pub open spec fn stamped_from<S>(
    voices: Seq<VoiceState<S>>,
    note: u8,
    stamp: u32,
    started: nat,
) -> bool {
    forall|i: int|
        0 <= i < voices.len() && (#[trigger] voices[i]).is_playing() ==> if voices[i].active_note()
            == Some(note) {
            stamp <= voices[i].priority < stamp + started
        } else {
            voices[i].priority < stamp
        }
}

/// A pool can start `wanted` voices on a note that none of its voices plays
/// without giving up one of them again: it has at least as many idle voices,
/// or it has at least as many voices at all and its stamps are in order and
/// stay so.
pub open spec fn can_place<S>(voices: Seq<VoiceState<S>>, stamp: u32, wanted: nat) -> bool {
    ||| wanted <= idle_voices(voices)
    ||| {
        &&& wanted <= voices.len()
        &&& stamp + wanted <= u32::MAX + 1
        &&& stamps_below(voices, stamp as int)
    }
}

/// The sampler can take a note on each of the sounds that apply without
/// giving up a voice that it has just started, see [`can_place`]. The voices
/// that still play the note count as idle: the note-on unbinds them first.
pub open spec fn can_layer<S: SamplerSound>(
    state: SamplerState<S>,
    note: u8,
    velocity: u8,
) -> bool {
    can_place(
        model::silenced(state.voices, note),
        state.next_voice_priority,
        sounds_matching(state.sounds, note, velocity),
    )
}

/// No start of a note-on takes a voice that an earlier start of the same
/// note-on has given the note: whenever one of `sounds` applies, the voice
/// that it gets does not play the note yet.
pub open spec fn gives_up_none<S: SamplerSound>(
    quiet: Seq<VoiceState<S>>,
    stamp: u32,
    sounds: Seq<S>,
    note: u8,
    velocity: u8,
) -> bool
    decreases sounds.len(),
{
    if sounds.len() == 0 {
        true
    } else {
        let before = model::layered(quiet, stamp, sounds.drop_last(), note, velocity).0;
        &&& gives_up_none(quiet, stamp, sounds.drop_last(), note, velocity)
        &&& sounds.last().applies_to(note, velocity) ==> before[model::allocation(
            before,
        )].active_note() != Some(note)
    }
}

/// For each of `sounds`, the voice that a note-on gives it, or -1 where the
/// sound does not apply.
pub open spec fn voices_given<S: SamplerSound>(
    quiet: Seq<VoiceState<S>>,
    stamp: u32,
    sounds: Seq<S>,
    note: u8,
    velocity: u8,
) -> Seq<int>
    decreases sounds.len(),
{
    if sounds.len() == 0 {
        Seq::empty()
    } else {
        let before = model::layered(quiet, stamp, sounds.drop_last(), note, velocity).0;
        voices_given(quiet, stamp, sounds.drop_last(), note, velocity).push(
            if sounds.last().applies_to(note, velocity) {
                model::allocation(before)
            } else {
                -1
            },
        )
    }
}

/// `given` pairs the sounds that apply with the voices that play the note,
/// one to one: each such sound has a voice of its own, which is bound to the
/// sound and the note with its key held, and no other voice plays the note.
pub open spec fn one_voice_per_sound<S: SamplerSound>(
    voices: Seq<VoiceState<S>>,
    sounds: Seq<S>,
    given: Seq<int>,
    note: u8,
    velocity: u8,
) -> bool {
    &&& given.len() == sounds.len()
    &&& forall|k: int|
        0 <= k < sounds.len() && (#[trigger] sounds[k]).applies_to(note, velocity) ==> {
            &&& 0 <= given[k] < voices.len()
            &&& voices[given[k]].binding == Some((sounds[k], note))
            &&& voices[given[k]].key_down
        }
    &&& forall|k: int, l: int|
        0 <= k < l < sounds.len() && (#[trigger] sounds[k]).applies_to(note, velocity) && (
        #[trigger] sounds[l]).applies_to(note, velocity) ==> given[k] != given[l]
    &&& forall|i: int|
        0 <= i < voices.len() && (#[trigger] voices[i]).active_note() == Some(note) ==> exists|
            k: int,
        |
            0 <= k < sounds.len() && (#[trigger] sounds[k]).applies_to(note, velocity) && given[k]
                == i
}

/// The note-on of a sampler gives up no voice that it has just started, see
/// [`gives_up_none`].
pub open spec fn keeps_what_it_starts<S: SamplerSound>(
    state: SamplerState<S>,
    note: u8,
    velocity: u8,
) -> bool {
    gives_up_none(
        model::silenced(state.voices, note),
        state.next_voice_priority,
        state.sounds,
        note,
        velocity,
    )
}

proof fn lemma_voices_playing_update<S>(
    voices: Seq<VoiceState<S>>,
    note: u8,
    i: int,
    voice: VoiceState<S>,
)
    requires
        0 <= i < voices.len(),
    ensures
        voices_playing(voices.update(i, voice), note) + (if voices[i].active_note() == Some(note) {
            1nat
        } else {
            0nat
        }) == voices_playing(voices, note) + (if voice.active_note() == Some(note) {
            1nat
        } else {
            0nat
        }),
    decreases voices.len(),
{
    let updated = voices.update(i, voice);
    if i == voices.len() - 1 {
        assert(updated.drop_last() =~= voices.drop_last());
    } else {
        assert(updated.drop_last() =~= voices.drop_last().update(i, voice));
        lemma_voices_playing_update(voices.drop_last(), note, i, voice);
    }
}

proof fn lemma_idle_voices_update<S>(voices: Seq<VoiceState<S>>, i: int, voice: VoiceState<S>)
    requires
        0 <= i < voices.len(),
    ensures
        idle_voices(voices.update(i, voice)) + (if voices[i].is_playing() {
            0nat
        } else {
            1nat
        }) == idle_voices(voices) + (if voice.is_playing() {
            0nat
        } else {
            1nat
        }),
    decreases voices.len(),
{
    let updated = voices.update(i, voice);
    if i == voices.len() - 1 {
        assert(updated.drop_last() =~= voices.drop_last());
    } else {
        assert(updated.drop_last() =~= voices.drop_last().update(i, voice));
        lemma_idle_voices_update(voices.drop_last(), i, voice);
    }
}

/// Where fewer voices play a note than the pool has, some voice does not.
proof fn lemma_some_voice_elsewhere<S>(voices: Seq<VoiceState<S>>, note: u8) -> (i: int)
    requires
        voices_playing(voices, note) < voices.len(),
    ensures
        0 <= i < voices.len(),
        voices[i].active_note() != Some(note),
    decreases voices.len(),
{
    if voices.last().active_note() != Some(note) {
        voices.len() - 1
    } else {
        lemma_some_voice_elsewhere(voices.drop_last(), note)
    }
}

/// Where the count of idle voices is positive, some voice is idle.
proof fn lemma_some_voice_idle<S>(voices: Seq<VoiceState<S>>) -> (i: int)
    requires
        idle_voices(voices) > 0,
    ensures
        0 <= i < voices.len(),
        !voices[i].is_playing(),
    decreases voices.len(),
{
    if !voices.last().is_playing() {
        voices.len() - 1
    } else {
        lemma_some_voice_idle(voices.drop_last())
    }
}

/// Where no voice plays a note, the count of voices that play it is zero.
proof fn lemma_nobody_playing<S>(voices: Seq<VoiceState<S>>, note: u8)
    requires
        forall|i: int| 0 <= i < voices.len() ==> (#[trigger] voices[i]).active_note() != Some(note),
    ensures
        voices_playing(voices, note) == 0,
    decreases voices.len(),
{
    if voices.len() > 0 {
        lemma_nobody_playing(voices.drop_last(), note);
    }
}

/// A pool with at least one voice has an allocation.
pub proof fn lemma_allocation_exists<S>(voices: Seq<VoiceState<S>>) -> (i: int)
    requires
        voices.len() > 0,
    ensures
        model::is_allocation(voices, i),
        model::allocation(voices) == i,
{
    let i = lemma_allocation_in_prefix(voices, voices.len() as int);
    model::lemma_allocation_unique(voices, i);
    i
}

/// The first idle voice among the first `n`, or else the oldest of them.
proof fn lemma_allocation_in_prefix<S>(voices: Seq<VoiceState<S>>, n: int) -> (i: int)
    requires
        0 < n <= voices.len(),
    ensures
        0 <= i < n,
        !voices[i].is_playing() ==> forall|j: int|
            0 <= j < i ==> (#[trigger] voices[j]).is_playing(),
        voices[i].is_playing() ==> {
            &&& forall|j: int| 0 <= j < n ==> (#[trigger] voices[j]).is_playing()
            &&& forall|j: int| 0 <= j < n ==> voices[i].priority <= (#[trigger] voices[j]).priority
            &&& forall|j: int| 0 <= j < i ==> voices[i].priority < (#[trigger] voices[j]).priority
        },
        n == voices.len() ==> model::is_allocation(voices, i),
    decreases n,
{
    if n == 1 {
        0
    } else {
        let before = lemma_allocation_in_prefix(voices, n - 1);
        if !voices[before].is_playing() {
            before
        } else if !voices[n - 1].is_playing() {
            n - 1
        } else if voices[n - 1].priority < voices[before].priority {
            n - 1
        } else {
            before
        }
    }
}

/// The induction behind the laws of note-on, over the sounds tried so far.
proof fn lemma_layered_counts<S: SamplerSound>(
    quiet: Seq<VoiceState<S>>,
    stamp: u32,
    sounds: Seq<S>,
    note: u8,
    velocity: u8,
)
    requires
        quiet.len() > 0,
        forall|i: int| 0 <= i < quiet.len() ==> (#[trigger] quiet[i]).active_note() != Some(note),
    ensures
        ({
            let (voices, next) = model::layered(quiet, stamp, sounds, note, velocity);
            let started = sounds_matching(sounds, note, velocity);
            &&& voices.len() == quiet.len()
            &&& forall|i: int|
                0 <= i < voices.len() && (#[trigger] voices[i]).active_note() == Some(note)
                    ==> voices[i].key_down
            &&& voices_playing(voices, note) <= started
            &&& voices_playing(voices, note) == started <==> gives_up_none(
                quiet,
                stamp,
                sounds,
                note,
                velocity,
            )
            &&& can_place(quiet, stamp, started) ==> gives_up_none(
                quiet,
                stamp,
                sounds,
                note,
                velocity,
            )
            &&& started <= idle_voices(quiet) ==> idle_voices(voices) + started == idle_voices(
                quiet,
            )
            &&& stamp + started <= u32::MAX + 1 && stamps_below(quiet, stamp as int) ==> {
                &&& stamp + started <= u32::MAX ==> next == stamp + started
                &&& stamped_from(voices, note, stamp, started)
            }
        }),
    decreases sounds.len(),
{
    if sounds.len() == 0 {
        lemma_nobody_playing(quiet, note);
    } else {
        let earlier = sounds.drop_last();
        let sound = sounds.last();
        lemma_layered_counts(quiet, stamp, earlier, note, velocity);
        let (before, current) = model::layered(quiet, stamp, earlier, note, velocity);
        let started = sounds_matching(earlier, note, velocity);
        let in_order = stamp + started + 1 <= u32::MAX + 1 && stamps_below(quiet, stamp as int);
        if sound.applies_to(note, velocity) {
            let i = lemma_allocation_exists(before);
            let voice = before[i].started(note, sound, current).with_key_down(true);
            let voices = before.update(i, voice);
            assert(model::layered(quiet, stamp, sounds, note, velocity) == (
                voices,
                model::next_stamp(current),
            ));
            if can_place(quiet, stamp, started + 1) {
                // The voice that is taken is none of those just started.
                if started + 1 <= idle_voices(quiet) {
                    let idle = lemma_some_voice_idle(before);
                    assert(!before[idle].is_playing());
                    assert(!before[i].is_playing());
                } else if before[i].is_playing() {
                    let other = lemma_some_voice_elsewhere(before, note);
                    assert(before[other].is_playing());
                    assert(before[i].priority <= before[other].priority);
                    assert(before[other].priority < stamp);
                }
                assert(before[i].active_note() != Some(note));
            }
            lemma_voices_playing_update(before, note, i, voice);
            lemma_idle_voices_update(before, i, voice);
            assert forall|j: int|
                0 <= j < voices.len() && (#[trigger] voices[j]).active_note() == Some(
                    note,
                ) implies voices[j].key_down by {
                if j != i {
                    assert(voices[j] == before[j]);
                }
            }
            if in_order {
                assert(current == stamp + started);
                assert(stamped_from(voices, note, stamp, started + 1)) by {
                    assert forall|j: int| 0 <= j < voices.len() && j != i implies voices[j]
                        == before[j] by {}
                }
            }
        }
    }
}

/// Where a note-on gives up no voice that it has just started, it pairs the
/// sounds that apply with the voices that play the note, one to one.
proof fn lemma_layered_pairs<S: SamplerSound>(
    quiet: Seq<VoiceState<S>>,
    stamp: u32,
    sounds: Seq<S>,
    note: u8,
    velocity: u8,
)
    requires
        quiet.len() > 0,
        forall|i: int| 0 <= i < quiet.len() ==> (#[trigger] quiet[i]).active_note() != Some(note),
        gives_up_none(quiet, stamp, sounds, note, velocity),
    ensures
        one_voice_per_sound(
            model::layered(quiet, stamp, sounds, note, velocity).0,
            sounds,
            voices_given(quiet, stamp, sounds, note, velocity),
            note,
            velocity,
        ),
    decreases sounds.len(),
{
    if sounds.len() > 0 {
        let earlier = sounds.drop_last();
        let sound = sounds.last();
        let last = sounds.len() - 1;
        lemma_layered_pairs(quiet, stamp, earlier, note, velocity);
        lemma_layered_counts(quiet, stamp, earlier, note, velocity);
        let (before, current) = model::layered(quiet, stamp, earlier, note, velocity);
        let given_before = voices_given(quiet, stamp, earlier, note, velocity);
        let voices = model::layered(quiet, stamp, sounds, note, velocity).0;
        let given = voices_given(quiet, stamp, sounds, note, velocity);
        assert forall|k: int| 0 <= k < last implies sounds[k] == earlier[k] && given[k]
            == given_before[k] by {}
        if sound.applies_to(note, velocity) {
            let i = lemma_allocation_exists(before);
            assert(given[last] == i);
            assert(before[i].active_note() != Some(note));
            assert forall|k: int|
                0 <= k < sounds.len() && (#[trigger] sounds[k]).applies_to(
                    note,
                    velocity,
                ) implies 0 <= given[k] < voices.len() && voices[given[k]].binding == Some(
                (sounds[k], note),
            ) && voices[given[k]].key_down by {
                if k < last {
                    assert(earlier[k].applies_to(note, velocity));
                    assert(before[given[k]].active_note() == Some(note));
                }
            }
            assert forall|k: int, l: int|
                0 <= k < l < sounds.len() && (#[trigger] sounds[k]).applies_to(note, velocity) && (
                #[trigger] sounds[l]).applies_to(note, velocity) implies given[k] != given[l] by {
                assert(earlier[k].applies_to(note, velocity));
                if l < last {
                    assert(earlier[l].applies_to(note, velocity));
                } else {
                    assert(before[given[k]].active_note() == Some(note));
                }
            }
            assert forall|j: int|
                0 <= j < voices.len() && (#[trigger] voices[j]).active_note() == Some(
                    note,
                ) implies exists|k: int|
                0 <= k < sounds.len() && (#[trigger] sounds[k]).applies_to(note, velocity)
                    && given[k] == j by {
                if j == i {
                    assert(sounds[last].applies_to(note, velocity) && given[last] == j);
                } else {
                    assert(before[j].active_note() == Some(note));
                    let k = choose|k: int|
                        0 <= k < earlier.len() && (#[trigger] earlier[k]).applies_to(
                            note,
                            velocity,
                        ) && given_before[k] == j;
                    assert(sounds[k].applies_to(note, velocity) && given[k] == j);
                }
            }
        } else {
            assert(voices == before);
            assert forall|k: int|
                0 <= k < sounds.len() && (#[trigger] sounds[k]).applies_to(
                    note,
                    velocity,
                ) implies 0 <= given[k] < voices.len() && voices[given[k]].binding == Some(
                (sounds[k], note),
            ) && voices[given[k]].key_down by {
                assert(earlier[k].applies_to(note, velocity));
            }
            assert forall|k: int, l: int|
                0 <= k < l < sounds.len() && (#[trigger] sounds[k]).applies_to(note, velocity) && (
                #[trigger] sounds[l]).applies_to(note, velocity) implies given[k] != given[l] by {
                assert(earlier[k].applies_to(note, velocity));
                assert(earlier[l].applies_to(note, velocity));
            }
            assert forall|j: int|
                0 <= j < voices.len() && (#[trigger] voices[j]).active_note() == Some(
                    note,
                ) implies exists|k: int|
                0 <= k < sounds.len() && (#[trigger] sounds[k]).applies_to(note, velocity)
                    && given[k] == j by {
                let k = choose|k: int|
                    0 <= k < earlier.len() && (#[trigger] earlier[k]).applies_to(note, velocity)
                        && given_before[k] == j;
                assert(sounds[k].applies_to(note, velocity) && given[k] == j);
            }
        }
    }
}

/// The pool that a note-on starts from, with the voices that still play the
/// note unbound, has no voice that plays the note, and keeps its stamps in
/// order.
proof fn lemma_silenced<S>(voices: Seq<VoiceState<S>>, note: u8, stamp: int)
    ensures
        forall|i: int|
            0 <= i < voices.len() ==> (#[trigger] model::silenced(
                voices,
                note,
            )[i]).active_note() != Some(note),
        stamps_below(voices, stamp) ==> stamps_below(model::silenced(voices, note), stamp),
{
    let quiet = model::silenced(voices, note);
    if stamps_below(voices, stamp) {
        assert forall|i: int|
            0 <= i < quiet.len() && (#[trigger] quiet[i]).is_playing() implies quiet[i].priority
            < stamp by {
            assert(voices[i].is_playing());
        }
    }
}

/// After a note-on, as many voices play the note as sounds apply to it, and
/// the key of each of them is held.
///
/// This holds where the sampler has at least one voice and at least one sound
/// that applies, and where the note-on gives up no voice that it has just
/// started, see [`keeps_what_it_starts`]. It holds of no other note-on, see
/// [`lemma_note_on_voice_count`]; [`lemma_can_layer`] names pools of which it
/// holds.
pub proof fn lemma_note_on_one_voice_per_sound<S: SamplerSound>(
    state: SamplerState<S>,
    note: u8,
    velocity: u8,
)
    requires
        state.voices.len() >= 1,
        sounds_matching(state.sounds, note, velocity) >= 1,
        keeps_what_it_starts(state, note, velocity),
    ensures
        voices_playing(state.note_on(note, velocity).voices, note) == sounds_matching(
            state.sounds,
            note,
            velocity,
        ),
        forall|i: int|
            0 <= i < state.note_on(note, velocity).voices.len() && (#[trigger] state.note_on(
                note,
                velocity,
            ).voices[i]).active_note() == Some(note) ==> state.note_on(
                note,
                velocity,
            ).voices[i].key_down,
{
    lemma_note_on_voice_count(state, note, velocity);
}

/// After a note-on, each sound that applies to the note has a voice of its
/// own: the voice is bound to that sound and to the note, its key is held,
/// and no other voice plays the note.
///
/// This holds where the sampler has at least one voice and at least one
/// sound, and where the note-on gives up no voice that it has just started,
/// see [`keeps_what_it_starts`]. The voice of each sound is the one that
/// [`voices_given`] names.
pub proof fn lemma_note_on_pairs_sounds_and_voices<S: SamplerSound>(
    state: SamplerState<S>,
    note: u8,
    velocity: u8,
)
    requires
        state.voices.len() >= 1,
        state.sounds.len() >= 1,
        keeps_what_it_starts(state, note, velocity),
    ensures
        one_voice_per_sound(
            state.note_on(note, velocity).voices,
            state.sounds,
            voices_given(
                model::silenced(state.voices, note),
                state.next_voice_priority,
                state.sounds,
                note,
                velocity,
            ),
            note,
            velocity,
        ),
{
    lemma_silenced(state.voices, note, state.next_voice_priority as int);
    lemma_layered_pairs(
        model::silenced(state.voices, note),
        state.next_voice_priority,
        state.sounds,
        note,
        velocity,
    );
}

/// A key that goes up while the sustain pedal is held rings on, and is
/// released when the pedal is lifted: after pressing the pedal, releasing the
/// key of a note and lifting the pedal, every voice that played the note has
/// its key up and its envelope in its release, and plays the note still.
pub proof fn lemma_pedal_defers_release<S: SamplerSound>(state: SamplerState<S>, note: u8)
    ensures
        ({
            let held = state.sustain_pedal(true).note_off(note);
            let lifted = held.sustain_pedal(false);
            forall|i: int|
                0 <= i < state.voices.len() && (#[trigger] state.voices[i]).active_note() == Some(
                    note,
                ) ==> {
                    &&& held.voices[i].stage == state.voices[i].stage
                    &&& held.voices[i].active_note() == Some(note)
                    &&& !held.voices[i].key_down
                    &&& lifted.voices[i].stage == Some(AdsrStage::Release)
                    &&& lifted.voices[i].active_note() == Some(note)
                    &&& !lifted.voices[i].key_down
                }
        }),
{
    let held = state.sustain_pedal(true).note_off(note);
    let lifted = held.sustain_pedal(false);
    assert forall|i: int|
        0 <= i < state.voices.len() && (#[trigger] state.voices[i]).active_note() == Some(
            note,
        ) implies held.voices[i].stage == state.voices[i].stage && held.voices[i].active_note()
        == Some(note) && !held.voices[i].key_down && lifted.voices[i].stage == Some(
        AdsrStage::Release,
    ) && lifted.voices[i].active_note() == Some(note) && !lifted.voices[i].key_down by {
        assert(held.voices[i] == state.voices[i].with_key_down(false));
        assert(lifted.voices[i] == held.voices[i].stopped(true));
    }
}

/// After a note-on on a sampler with a sound and a voice, no more voices play
/// the note than sounds apply to it, the key of each of them is held, and
/// there are exactly as many if and only if the note-on gave up no voice that
/// it had just started.
pub proof fn lemma_note_on_voice_count<S: SamplerSound>(
    state: SamplerState<S>,
    note: u8,
    velocity: u8,
)
    requires
        state.voices.len() >= 1,
        state.sounds.len() >= 1,
    ensures
        voices_playing(state.note_on(note, velocity).voices, note) <= sounds_matching(
            state.sounds,
            note,
            velocity,
        ),
        voices_playing(state.note_on(note, velocity).voices, note) == sounds_matching(
            state.sounds,
            note,
            velocity,
        ) <==> keeps_what_it_starts(state, note, velocity),
        forall|i: int|
            0 <= i < state.note_on(note, velocity).voices.len() && (#[trigger] state.note_on(
                note,
                velocity,
            ).voices[i]).active_note() == Some(note) ==> state.note_on(
                note,
                velocity,
            ).voices[i].key_down,
{
    lemma_silenced(state.voices, note, state.next_voice_priority as int);
    lemma_layered_counts(
        model::silenced(state.voices, note),
        state.next_voice_priority,
        state.sounds,
        note,
        velocity,
    );
}

/// A note-on gives up no voice that it has just started where the pool has
/// room for the note, see [`can_layer`]: enough voices that are idle or still
/// play the note, or enough voices at all and stamps that are in order and
/// stay so.
pub proof fn lemma_can_layer<S: SamplerSound>(state: SamplerState<S>, note: u8, velocity: u8)
    requires
        state.voices.len() >= 1,
        can_layer(state, note, velocity),
    ensures
        keeps_what_it_starts(state, note, velocity),
{
    lemma_silenced(state.voices, note, state.next_voice_priority as int);
    lemma_layered_counts(
        model::silenced(state.voices, note),
        state.next_voice_priority,
        state.sounds,
        note,
        velocity,
    );
}

/// A note-on keeps the stamps in order: where every playing voice has a
/// stamp below the counter, and the counter does not wrap around during the
/// note-on, the same holds afterwards. The counter has advanced by one for
/// each sound that applies, and the voices that play the note carry the
/// stamps in between.
pub proof fn lemma_note_on_keeps_stamps_in_order<S: SamplerSound>(
    state: SamplerState<S>,
    note: u8,
    velocity: u8,
)
    requires
        state.sounds.len() >= 1,
        state.voices.len() >= 1,
        stamps_below(state.voices, state.next_voice_priority as int),
        state.next_voice_priority + sounds_matching(state.sounds, note, velocity) <= u32::MAX,
    ensures
        ({
            let after = state.note_on(note, velocity);
            let started = sounds_matching(state.sounds, note, velocity);
            &&& after.next_voice_priority == state.next_voice_priority + started
            &&& stamped_from(after.voices, note, state.next_voice_priority, started)
            &&& stamps_below(after.voices, after.next_voice_priority as int)
        }),
{
    lemma_silenced(state.voices, note, state.next_voice_priority as int);
    lemma_layered_counts(
        model::silenced(state.voices, note),
        state.next_voice_priority,
        state.sounds,
        note,
        velocity,
    );
}

/// Every event but a note-on leaves the stamps as they are and starts no
/// voice, so it keeps the stamps in order.
proof fn lemma_other_events_keep_stamps_in_order<S: SamplerSound>(
    state: SamplerState<S>,
    note: u8,
    pressed: bool,
    allow_tail: bool,
)
    requires
        stamps_below(state.voices, state.next_voice_priority as int),
    ensures
        stamps_below(state.note_off(note).voices, state.next_voice_priority as int),
        stamps_below(state.sustain_pedal(pressed).voices, state.next_voice_priority as int),
        stamps_below(state.all_notes_off(allow_tail).voices, state.next_voice_priority as int),
{
    let stamp = state.next_voice_priority as int;
    let released = state.note_off(note).voices;
    assert forall|i: int|
        0 <= i < released.len() && (#[trigger] released[i]).is_playing() implies released[i]
            .priority < stamp by {
        assert(state.voices[i].is_playing());
    }
    let lifted = state.sustain_pedal(pressed).voices;
    assert forall|i: int|
        0 <= i < lifted.len() && (#[trigger] lifted[i]).is_playing() implies lifted[i].priority
        < stamp by {
        assert(state.voices[i].is_playing());
    }
    let stopped = state.all_notes_off(allow_tail).voices;
    assert forall|i: int|
        0 <= i < stopped.len() && (#[trigger] stopped[i]).is_playing() implies stopped[i].priority
        < stamp by {
        assert(state.voices[i].is_playing());
    }
}

/// Whether handling `message` moves the stamp counter past its largest value:
/// it is a note-on with a velocity above zero, and the counter is less than
/// one step for each sound that applies away from wrapping around.
pub open spec fn wraps_around<S: SamplerSound>(
    state: SamplerState<S>,
    message: MidiMessage,
) -> bool {
    match message {
        MidiMessage::NoteOn(_, note, velocity) => velocity > 0 && state.next_voice_priority
            + sounds_matching(state.sounds, note, velocity) > u32::MAX,
        _ => false,
    }
}

/// Handling a MIDI message keeps the stamps in order as long as the counter
/// does not wrap around: where every playing voice has a stamp below the
/// counter before, the same holds afterwards.
pub proof fn lemma_handle_keeps_stamps_in_order<S: SamplerSound>(
    state: SamplerState<S>,
    message: MidiMessage,
)
    requires
        stamps_below(state.voices, state.next_voice_priority as int),
        !wraps_around(state, message),
    ensures
        stamps_below(
            state.handle(message).voices,
            state.handle(message).next_voice_priority as int,
        ),
{
    match message {
        MidiMessage::NoteOn(_, note, velocity) => {
            if velocity > 0 && state.sounds.len() > 0 && state.voices.len() > 0 {
                lemma_note_on_keeps_stamps_in_order(state, note, velocity);
            } else {
                lemma_other_events_keep_stamps_in_order(state, note, true, true);
            }
        },
        MidiMessage::NoteOff(_, note, _) => {
            lemma_other_events_keep_stamps_in_order(state, note, true, true);
        },
        MidiMessage::ControlChange(_, _, value) => {
            lemma_other_events_keep_stamps_in_order(
                state,
                0,
                value >= model::PEDAL_THRESHOLD,
                true,
            );
        },
    }
}

/// Handling a MIDI message changes neither the sounds nor the size of the
/// pool, nor the channel layout and the block limit: messages move voices
/// between notes and nothing else.
pub proof fn lemma_handle_keeps_pool<S: SamplerSound>(
    state: SamplerState<S>,
    message: MidiMessage,
)
    ensures
        state.handle(message).voices.len() == state.voices.len(),
        state.handle(message).sounds == state.sounds,
        state.handle(message).channel_count == state.channel_count,
        state.handle(message).max_buffer_size == state.max_buffer_size,
{
    match message {
        MidiMessage::NoteOn(_, note, velocity) => {
            if velocity > 0 && state.sounds.len() > 0 && state.voices.len() > 0 {
                lemma_silenced(state.voices, note, state.next_voice_priority as int);
                lemma_layered_counts(
                    model::silenced(state.voices, note),
                    state.next_voice_priority,
                    state.sounds,
                    note,
                    velocity,
                );
            }
        },
        _ => {},
    }
}

} // verus!
