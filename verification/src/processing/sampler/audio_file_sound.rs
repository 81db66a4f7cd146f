use super::sampler_sound::SamplerSound;
use crate::base::FloatBits;
use vstd::prelude::*;

verus! {

/// The sample word of silence: the bits of `0.0`.
pub const SILENCE: FloatBits = 0;

/// Where a sound applies and how it is pitched: root midi note, lowest midi
/// note, highest midi note, lowest velocity, highest velocity.
pub type MidiRegion = (u8, u8, u8, u8, u8);

/// Envelope times in seconds: attack, decay, sustain, release.
pub type AdsrTimes = (FloatBits, FloatBits, FloatBits, FloatBits);

/// Audio file sound for sampler: interleaved PCM held in memory, followed by
/// one frame of silence so that interpolating at the last frame has a frame to
/// lean on.
pub struct AudioFileSound {
    /// ADSR envelope in seconds.
    adsr: AdsrTimes,
    /// Channels in audio file / buffer.
    channel_count: u16,
    /// Duration in samples.
    duration_samples: usize,
    /// Root midi note, lowest midi note, highest midi note, lowest velocity,
    /// highest velocity.
    midi_region: MidiRegion,
    /// Audio file sample buffer.
    sample_buffer: Vec<FloatBits>,
    /// Audio file sample rate.
    sample_rate: FloatBits,
}

/// The longest prefix of interleaved samples that is made of whole frames.
pub open spec fn whole_frames(samples: Seq<FloatBits>, channel_count: u16) -> Seq<FloatBits> {
    samples.take(((samples.len() as int) / (channel_count as int)) * (channel_count as int))
}

/// What an audio file sound is, to its callers.
pub struct AudioFileSoundView {
    /// ADSR envelope in seconds.
    pub adsr: AdsrTimes,
    /// Channels per frame; at least one.
    pub channel_count: u16,
    /// The samples of the whole frames, interleaved, without the padding.
    pub samples: Seq<FloatBits>,
    /// MIDI region.
    pub midi_region: MidiRegion,
    /// Sample rate.
    pub sample_rate: FloatBits,
}

impl AudioFileSoundView {
    /// Number of frames.
    pub open spec fn duration(self) -> int {
        (self.samples.len() as int) / (self.channel_count as int)
    }

    /// The stereo frame at `index`: the first two channels, a mono sound on
    /// both sides, and silence for the frame after the last.
    pub open spec fn frame(self, index: int) -> (FloatBits, FloatBits) {
        if index < self.duration() {
            (
                self.samples[index * self.channel_count],
                if self.channel_count == 1 {
                    self.samples[index * self.channel_count]
                } else {
                    self.samples[index * self.channel_count + 1]
                },
            )
        } else {
            (SILENCE, SILENCE)
        }
    }

    /// Whether the region takes a note at a velocity: both lie within the
    /// bounds of the region, the bounds included.
    pub open spec fn applies_to(self, midi_note: u8, midi_velocity: u8) -> bool {
        &&& self.midi_region.1 <= midi_note <= self.midi_region.2
        &&& self.midi_region.3 <= midi_velocity <= self.midi_region.4
    }
}

impl View for AudioFileSound {
    type V = AudioFileSoundView;

    closed spec fn view(&self) -> AudioFileSoundView {
        AudioFileSoundView {
            adsr: self.adsr,
            channel_count: self.channel_count,
            samples: self.sample_buffer@.take(self.duration_samples * self.channel_count),
            midi_region: self.midi_region,
            sample_rate: self.sample_rate,
        }
    }
}

impl AudioFileSound {
    #[verifier::type_invariant]
    spec fn well_formed(&self) -> bool {
        &&& self.channel_count >= 1
        &&& self.sample_buffer@.len() == (self.duration_samples + 1) * self.channel_count
        &&& forall|i: int|
            self.duration_samples * self.channel_count <= i < self.sample_buffer@.len()
                ==> self.sample_buffer@[i] == SILENCE
    }

    /// Creates new audio file sound from interleaved samples.
    ///
    /// The sound holds the whole frames of `samples`: a trailing part of a
    /// frame is dropped. Without a channel there is no sound.
    pub fn from_samples(
        samples: Vec<FloatBits>,
        channel_count: u16,
        sample_rate: FloatBits,
        midi_region: MidiRegion,
        adsr: AdsrTimes,
    ) -> (sound: Option<Self>)
        ensures
            sound is Some <==> channel_count > 0,
            sound matches Some(s) ==> s@ == (AudioFileSoundView {
                adsr,
                channel_count,
                samples: whole_frames(samples@, channel_count),
                midi_region,
                sample_rate,
            }),
    {
        if channel_count == 0 {
            return None;
        }
        let channels: usize = channel_count as usize;
        let duration_samples: usize = samples.len() / channels;
        assert(duration_samples * channels <= samples.len()) by {
            vstd::arithmetic::div_mod::lemma_fundamental_div_mod(
                samples.len() as int,
                channels as int,
            );
            vstd::arithmetic::mul::lemma_mul_is_commutative(
                duration_samples as int,
                channels as int,
            );
        }
        let whole: usize = duration_samples * channels;
        let mut sample_buffer: Vec<FloatBits> = samples;
        sample_buffer.truncate(whole);
        // Add padding for linear interpolation.
        let mut padded: usize = 0;
        while padded < channels
            invariant
                padded <= channels,
                whole == duration_samples * channels,
                whole <= samples@.len(),
                sample_buffer@.len() == whole + padded,
                sample_buffer@.take(whole as int) == samples@.take(whole as int),
                forall|i: int| whole <= i < sample_buffer@.len() ==> sample_buffer@[i] == SILENCE,
            decreases channels - padded,
        {
            sample_buffer.push(SILENCE);
            padded += 1;
            assert(sample_buffer@.take(whole as int) =~= samples@.take(whole as int));
        }
        assert((duration_samples + 1) * channels == duration_samples * channels + channels)
            by (nonlinear_arith);
        Some(
            AudioFileSound {
                adsr,
                channel_count,
                duration_samples,
                midi_region,
                sample_buffer,
                sample_rate,
            },
        )
    }

    /// ADSR envelope in seconds.
    pub fn adsr(&self) -> (adsr: AdsrTimes)
        ensures
            adsr == self@.adsr,
    {
        self.adsr
    }

    /// Channels in audio file / buffer.
    pub fn channel_count(&self) -> (channel_count: u16)
        ensures
            channel_count == self@.channel_count,
            channel_count >= 1,
    {
        proof {
            use_type_invariant(self);
        }
        self.channel_count
    }

    /// Duration in samples.
    pub fn duration_samples(&self) -> (duration: usize)
        ensures
            duration == self@.duration(),
    {
        proof {
            use_type_invariant(self);
            self.lemma_duration();
        }
        self.duration_samples
    }

    /// Root midi note, lowest midi note, highest midi note, lowest velocity,
    /// highest velocity.
    pub fn midi_region(&self) -> (midi_region: MidiRegion)
        ensures
            midi_region == self@.midi_region,
    {
        self.midi_region
    }

    /// Audio file sample rate.
    pub fn sample_rate(&self) -> (sample_rate: FloatBits)
        ensures
            sample_rate == self@.sample_rate,
    {
        self.sample_rate
    }

    proof fn lemma_duration(&self)
        requires
            self.well_formed(),
        ensures
            self@.duration() == self.duration_samples,
            self@.samples.len() == self.duration_samples * self.channel_count,
    {
        let d = self.duration_samples as int;
        let c = self.channel_count as int;
        assert((d + 1) * c == d * c + c) by (nonlinear_arith);
        assert(0 <= d * c) by (nonlinear_arith)
            requires
                0 <= d,
                0 <= c,
        ;
        assert(self@.samples.len() == d * c);
        vstd::arithmetic::div_mod::lemma_div_multiples_vanish(d, c);
        vstd::arithmetic::mul::lemma_mul_is_commutative(d, c);
    }

    /// Returns the stereo frame at `index`, or [None] beyond the padding: the
    /// first two channels of the frame, a mono sound on both sides, and
    /// silence for the one frame after the last.
    pub fn frame(&self, index: usize) -> (frame: Option<(FloatBits, FloatBits)>)
        ensures
            frame == if index <= self@.duration() {
                Some(self@.frame(index as int))
            } else {
                None
            },
    {
        proof {
            use_type_invariant(self);
            self.lemma_duration();
        }
        if index > self.duration_samples {
            return None;
        }
        let channels: usize = self.channel_count as usize;
        proof {
            let i = index as int;
            let d = self.duration_samples as int;
            let c = channels as int;
            vstd::arithmetic::mul::lemma_mul_inequality(i + 1, d + 1, c);
            vstd::arithmetic::mul::lemma_mul_is_distributive_add_other_way(c, i, 1);
            vstd::arithmetic::mul::lemma_mul_nonnegative(i, c);
            vstd::arithmetic::mul::lemma_mul_is_distributive_add_other_way(c, d, 1);
            if i < d {
                vstd::arithmetic::mul::lemma_mul_inequality(i + 1, d, c);
            }
        }
        let buffer_len: usize = self.sample_buffer.len();
        // Samples are stored interleaved.
        let left_at: usize = index * channels;
        let left: FloatBits = self.sample_buffer[left_at];
        // Mirror left channel if mono, ignore channels beyond stereo.
        let right: FloatBits = if channels == 1 {
            left
        } else {
            self.sample_buffer[left_at + 1]
        };
        Some((left, right))
    }

    /// Returns the two stereo frames that a position between `index` and
    /// `index + 1` is interpolated from, or [None] where the sound has no
    /// frame at `index`.
    pub fn get_frames(&self, index: usize) -> (frames: Option<
        ((FloatBits, FloatBits), (FloatBits, FloatBits)),
    >)
        ensures
            frames == if index < self@.duration() {
                Some((self@.frame(index as int), self@.frame(index + 1)))
            } else {
                None
            },
    {
        let duration: usize = self.duration_samples();
        if index >= duration {
            return None;
        }
        let here = self.frame(index);
        let next = self.frame(index + 1);
        match (here, next) {
            (Some(a), Some(b)) => Some((a, b)),
            _ => None,
        }
    }
}

impl SamplerSound for AudioFileSound {
    open spec fn applies_to(&self, midi_note: u8, midi_velocity: u8) -> bool {
        self@.applies_to(midi_note, midi_velocity)
    }

    fn applies_to_note(&self, midi_note: u8, midi_velocity: u8) -> (applies: bool) {
        midi_note >= self.midi_region.1 && midi_note <= self.midi_region.2 && midi_velocity
            >= self.midi_region.3 && midi_velocity <= self.midi_region.4
    }
}

} // verus!
