use sampler::processing::{AudioFileSound, SamplerSound};
use std::f32::consts::PI;

const SAMPLE_RATE: f32 = 48000.0;

const DURATION: usize = 1024;

/// A stereo sine: 480 Hz on the left, 240 Hz on the right.
fn test_sine() -> Vec<u32> {
    let mut samples = Vec::new();
    for i in 0..DURATION {
        samples.push(f32::sin(2.0 * PI * 480.0 * i as f32 / SAMPLE_RATE).to_bits());
        samples.push(f32::sin(2.0 * PI * 240.0 * i as f32 / SAMPLE_RATE).to_bits());
    }
    samples
}

fn test_sound(midi_region: (u8, u8, u8, u8, u8), adsr: (f32, f32, f32, f32)) -> AudioFileSound {
    let adsr = (adsr.0.to_bits(), adsr.1.to_bits(), adsr.2.to_bits(), adsr.3.to_bits());
    AudioFileSound::from_samples(test_sine(), 2, SAMPLE_RATE.to_bits(), midi_region, adsr).unwrap()
}

/// Stereo sample value at position, by linear interpolation between the two frames around it.
fn get_value(sound: &AudioFileSound, sample_position: f32) -> (f32, f32) {
    let index = sample_position as usize;
    let alpha = sample_position - index as f32;
    let inv_alpha = 1.0 - alpha;
    let ((l0, r0), (l1, r1)) = sound.get_frames(index).unwrap();
    (
        inv_alpha * f32::from_bits(l0) + alpha * f32::from_bits(l1),
        inv_alpha * f32::from_bits(r0) + alpha * f32::from_bits(r1),
    )
}

#[test]
fn applies_to_note() {
    let sound = test_sound((48, 40, 50, 18, 120), (0.02, 0.0, 0.0, 0.3));
    assert_eq!(sound.applies_to_note(40, 40), true);
    assert_eq!(sound.applies_to_note(51, 40), false);
    assert_eq!(sound.applies_to_note(48, 18), true);
    assert_eq!(sound.applies_to_note(48, 121), false);
}

#[test]
fn returns_samples() {
    let sound = test_sound((48, 40, 50, 18, 120), (0.02, 0.0, 0.0, 0.3));

    for i in 0..512 {
        let l_expected = f32::sin(2.0 * PI * 480.0 * i as f32 / f32::from_bits(sound.sample_rate()));
        let r_expected = f32::sin(2.0 * PI * 240.0 * i as f32 / f32::from_bits(sound.sample_rate()));
        let value = get_value(&sound, i as f32);
        assert!(
            (value.0 - l_expected).abs() < 1e-3,
            "Unexpected left sample value at index {}: got {} instead of {}",
            i,
            value.0,
            l_expected
        );
        assert!(
            (value.1 - r_expected).abs() < 1e-3,
            "Unexpected right sample value at index {}: got {} instead of {}",
            i,
            value.1,
            r_expected
        );
    }
}

#[test]
fn interpolates_samples() {
    let sound = test_sound((48, 40, 50, 18, 120), (0.02, 0.0, 0.0, 0.3));

    // The frames that a position between 10 and 11 leans on are frames 10 and 11.
    assert_eq!(sound.get_frames(10), Some((sound.frame(10).unwrap(), sound.frame(11).unwrap())));

    // The positions are ones that single precision holds exactly, so that the weights are
    // exactly a quarter and three quarters, and a half.
    let value_10 = get_value(&sound, 10.0);
    let value_11 = get_value(&sound, 11.0);
    let value_10_75 = get_value(&sound, 10.75);
    let expected = (0.25 * value_10.0 + 0.75 * value_11.0, 0.25 * value_10.1 + 0.75 * value_11.1);
    assert!((value_10_75.0 - expected.0).abs() < 1e-16);
    assert!((value_10_75.1 - expected.1).abs() < 1e-16);

    // Edge case at end of file: the last frame leans on the padding.
    let last = sound.duration_samples() - 1;
    assert_eq!(sound.get_frames(last), Some((sound.frame(last).unwrap(), (0, 0))));
    let last_value = get_value(&sound, last as f32);
    let last_value_5 = get_value(&sound, last as f32 + 0.5);
    let expected = (0.5 * last_value.0, 0.5 * last_value.1);
    assert!((last_value_5.0 - expected.0).abs() < 1e-16);
    assert!((last_value_5.1 - expected.1).abs() < 1e-16);
    assert!(last_value.0.abs() > 0.1 && last_value.1.abs() > 0.1);
}

#[test]
fn region_bounds_are_inclusive() {
    let sound = test_sound((48, 40, 50, 18, 120), (0.02, 0.0, 0.0, 0.3));
    assert!(!sound.applies_to_note(39, 60));
    assert!(sound.applies_to_note(40, 60));
    assert!(sound.applies_to_note(50, 60));
    assert!(!sound.applies_to_note(51, 60));
    assert!(!sound.applies_to_note(45, 17));
    assert!(sound.applies_to_note(45, 18));
    assert!(sound.applies_to_note(45, 120));
    assert!(!sound.applies_to_note(45, 121));
    // The root note plays no part.
    let rootless = test_sound((100, 40, 50, 0, 127), (0.02, 0.0, 0.0, 0.3));
    assert!(rootless.applies_to_note(45, 0));
    assert!(!rootless.applies_to_note(100, 0));
}

#[test]
fn keeps_what_it_was_made_from() {
    let sound = test_sound((48, 40, 50, 18, 120), (0.02, 0.0, 0.0, 0.3));
    assert_eq!(sound.channel_count(), 2);
    assert_eq!(sound.duration_samples(), DURATION);
    assert_eq!(sound.midi_region(), (48, 40, 50, 18, 120));
    assert_eq!(sound.sample_rate(), 48000.0f32.to_bits());
    assert_eq!(sound.adsr(), (0.02f32.to_bits(), 0, 0, 0.3f32.to_bits()));
}

#[test]
fn no_sound_without_a_channel() {
    let sound = AudioFileSound::from_samples(vec![1, 2, 3], 0, 0, (48, 0, 127, 0, 127), (0, 0, 0, 0));
    assert!(sound.is_none());
    let empty = AudioFileSound::from_samples(vec![], 0, 0, (48, 0, 127, 0, 127), (0, 0, 0, 0));
    assert!(empty.is_none());
}

#[test]
fn stereo_frames_and_padding() {
    let sound = AudioFileSound::from_samples(vec![10, 11, 20, 21, 30, 31], 2, 7, (48, 0, 127, 0, 127), (1, 2, 3, 4))
        .unwrap();
    assert_eq!(sound.duration_samples(), 3);
    assert_eq!(sound.frame(0), Some((10, 11)));
    assert_eq!(sound.frame(1), Some((20, 21)));
    assert_eq!(sound.frame(2), Some((30, 31)));
    // One frame of silence follows the last frame, and nothing follows that.
    assert_eq!(sound.frame(3), Some((0, 0)));
    assert_eq!(sound.frame(4), None);
    assert_eq!(sound.frame(usize::MAX), None);
    assert_eq!(sound.get_frames(0), Some(((10, 11), (20, 21))));
    assert_eq!(sound.get_frames(2), Some(((30, 31), (0, 0))));
    assert_eq!(sound.get_frames(3), None);
    assert_eq!(sound.get_frames(usize::MAX), None);
}

#[test]
fn mono_frames_sound_on_both_sides() {
    let sound = AudioFileSound::from_samples(vec![10, 20, 30], 1, 7, (48, 0, 127, 0, 127), (1, 2, 3, 4)).unwrap();
    assert_eq!(sound.channel_count(), 1);
    assert_eq!(sound.duration_samples(), 3);
    assert_eq!(sound.frame(0), Some((10, 10)));
    assert_eq!(sound.frame(2), Some((30, 30)));
    assert_eq!(sound.frame(3), Some((0, 0)));
    assert_eq!(sound.get_frames(1), Some(((20, 20), (30, 30))));
    assert_eq!(sound.get_frames(2), Some(((30, 30), (0, 0))));
}

#[test]
fn channels_beyond_stereo_are_ignored() {
    let sound =
        AudioFileSound::from_samples(vec![10, 11, 12, 20, 21, 22], 3, 7, (48, 0, 127, 0, 127), (1, 2, 3, 4)).unwrap();
    assert_eq!(sound.duration_samples(), 2);
    assert_eq!(sound.frame(0), Some((10, 11)));
    assert_eq!(sound.frame(1), Some((20, 21)));
    assert_eq!(sound.frame(2), Some((0, 0)));
    assert_eq!(sound.frame(3), None);
}

#[test]
fn a_trailing_part_of_a_frame_is_dropped() {
    let sound = AudioFileSound::from_samples(vec![10, 11, 20, 21, 30], 2, 7, (48, 0, 127, 0, 127), (1, 2, 3, 4)).unwrap();
    assert_eq!(sound.duration_samples(), 2);
    assert_eq!(sound.frame(1), Some((20, 21)));
    assert_eq!(sound.frame(2), Some((0, 0)));
    assert_eq!(sound.frame(3), None);
    let short = AudioFileSound::from_samples(vec![10], 2, 7, (48, 0, 127, 0, 127), (1, 2, 3, 4)).unwrap();
    assert_eq!(short.duration_samples(), 0);
    assert_eq!(short.frame(0), Some((0, 0)));
    assert_eq!(short.frame(1), None);
    assert_eq!(short.get_frames(0), None);
}

#[test]
fn an_empty_sound_is_one_frame_of_silence() {
    let sound = AudioFileSound::from_samples(vec![], 2, 7, (48, 0, 127, 0, 127), (1, 2, 3, 4)).unwrap();
    assert_eq!(sound.duration_samples(), 0);
    assert_eq!(sound.frame(0), Some((0, 0)));
    assert_eq!(sound.frame(1), None);
}
