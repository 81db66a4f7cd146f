use sampler::processing::{
    AdsrStage, AudioFileSound, AudioFileVoice, OscillatorSound, OscillatorVoice, SamplerSound, SamplerVoice,
};
use sampler::test::{DummySound, DummyVoice};
use std::sync::Arc;

fn short_sound(midi_region: (u8, u8, u8, u8, u8), adsr: (f32, f32, f32, f32)) -> AudioFileSound {
    let samples: Vec<u32> = (0..64).map(|i| (i as f32 / 64.0).to_bits()).collect();
    let adsr = (adsr.0.to_bits(), adsr.1.to_bits(), adsr.2.to_bits(), adsr.3.to_bits());
    AudioFileSound::from_samples(samples, 2, 1000.0f32.to_bits(), midi_region, adsr).unwrap()
}

#[test]
fn audio_file_voice_tail_ends_when_spent() {
    let mut voice = AudioFileVoice::new();
    let sound = short_sound((48, 40, 50, 18, 120), (0.001, 0.0, 0.0, 0.1));
    voice.reset(1000.0f32.to_bits(), 512);

    voice.start_note(48, 127, Arc::new(sound), 0);
    assert_eq!(voice.get_active_note(), Some(48));

    voice.stop_note(0, true);
    assert_eq!(voice.is_playing(), true); // Allow tail.

    // The tail is rendered: frames pass until the envelope is spent.
    for _ in 0..100 {
        assert!(voice.end_frame(false, false));
    }
    voice.end_frame(true, false);
    assert_eq!(voice.is_playing(), false);
}

#[test]
fn oscillator_voice_tail_ends_when_spent() {
    let mut voice = OscillatorVoice::new();
    let sound = OscillatorSound::new();
    voice.reset(1000.0f32.to_bits(), 512);

    voice.start_note(48, 127, Arc::new(sound), 0);
    assert_eq!(voice.get_active_note(), Some(48));

    voice.stop_note(0, true);
    assert_eq!(voice.is_playing(), true); // allow tail

    for _ in 0..100 {
        assert!(voice.end_frame(false));
    }
    voice.end_frame(true);
    assert_eq!(voice.is_playing(), false);
}

#[test]
fn audio_file_voice_lifecycle() {
    let mut voice = AudioFileVoice::new();
    assert_eq!(voice.get_active_note(), None);
    assert_eq!(voice.get_priority(), 0);
    assert!(!voice.is_key_down());
    assert!(!voice.is_playing());
    assert!(voice.active_sound().is_none());
    assert_eq!(voice.adsr().stage(), None);

    let sound = Arc::new(short_sound((60, 10, 20, 30, 40), (0.001, 0.0, 0.0, 0.1)));
    voice.start_note(15, 35, sound.clone(), 9);
    assert_eq!(voice.get_active_note(), Some(15));
    assert_eq!(voice.get_priority(), 9);
    assert!(voice.is_playing());
    assert!(!voice.is_key_down());
    assert_eq!(voice.adsr().stage(), Some(AdsrStage::Attack));
    let (bound, note) = voice.active_sound().as_ref().unwrap();
    assert!(Arc::ptr_eq(bound, &sound));
    assert_eq!(*note, 15);

    voice.set_key_down(true);
    assert!(voice.is_key_down());
    assert_eq!(voice.get_active_note(), Some(15));

    // In its attack the envelope never runs out.
    assert!(voice.end_frame(true, false));
    assert_eq!(voice.adsr().stage(), Some(AdsrStage::Attack));

    voice.stop_note(64, true);
    assert!(voice.is_playing());
    assert!(voice.is_key_down());
    assert_eq!(voice.adsr().stage(), Some(AdsrStage::Release));

    voice.stop_note(0, false);
    assert!(!voice.is_playing());
    assert_eq!(voice.get_active_note(), None);
    assert_eq!(voice.get_priority(), 9);
    assert_eq!(voice.adsr().stage(), Some(AdsrStage::Release));
}

#[test]
fn audio_file_voice_stops_at_the_end_of_the_sound() {
    let mut voice = AudioFileVoice::new();
    let sound = Arc::new(short_sound((60, 10, 20, 30, 40), (0.001, 0.0, 0.0, 0.1)));
    voice.start_note(15, 35, sound, 1);
    assert!(voice.end_frame(false, false));
    assert!(!voice.end_frame(false, true));
    assert!(!voice.is_playing());
    assert_eq!(voice.adsr().stage(), Some(AdsrStage::Attack));
}

#[test]
fn a_voice_with_an_inactive_envelope_stops_at_once() {
    let mut voice = OscillatorVoice::new();
    voice.start_note(69, 100, Arc::new(OscillatorSound::new()), 4);
    voice.stop_note(0, true);
    assert!(!voice.end_frame(true));
    assert_eq!(voice.adsr().stage(), None);
    assert_eq!(voice.get_priority(), 4);
}

#[test]
fn reset_unbinds_a_voice() {
    let mut voice = OscillatorVoice::new();
    voice.set_key_down(true);
    voice.start_note(69, 100, Arc::new(OscillatorSound::new()), 4);
    voice.reset(44100.0f32.to_bits(), 64);
    assert!(!voice.is_playing());
    assert_eq!(voice.adsr().stage(), None);
    assert!(voice.is_key_down());
    assert_eq!(voice.get_priority(), 4);

    let mut dummy = DummyVoice::new();
    dummy.start_note(69, 100, Arc::new(DummySound::new()), 4);
    dummy.reset(44100.0f32.to_bits(), 64);
    assert_eq!(dummy.get_active_note(), None);
    assert_eq!(dummy.stage(), None);
}

#[test]
fn dummy_voice_lifecycle() {
    let mut voice = DummyVoice::new();
    assert_eq!(voice.get_active_note(), None);
    assert!(!voice.is_playing());
    voice.start_note(33, 1, Arc::new(DummySound::new()), 12);
    assert_eq!(voice.get_active_note(), Some(33));
    assert_eq!(voice.get_priority(), 12);
    assert_eq!(voice.stage(), Some(AdsrStage::Attack));
    voice.stop_note(0, true);
    assert_eq!(voice.get_active_note(), Some(33));
    assert_eq!(voice.stage(), Some(AdsrStage::Release));
    voice.stop_note(0, false);
    assert_eq!(voice.get_active_note(), None);
}

#[test]
fn oscillator_and_dummy_sounds_apply_to_every_note() {
    let oscillator = OscillatorSound::new();
    let dummy = DummySound::new();
    for (note, velocity) in [(0u8, 0u8), (60, 100), (127, 127), (255, 255)] {
        assert!(oscillator.applies_to_note(note, velocity));
        assert!(dummy.applies_to_note(note, velocity));
    }
}

#[test]
fn a_started_note_is_taken_up_once() {
    let mut voice = AudioFileVoice::new();
    assert!(!voice.take_restart());
    let sound = Arc::new(short_sound((60, 10, 20, 30, 40), (0.001, 0.0, 0.0, 0.1)));
    voice.start_note(15, 35, sound.clone(), 1);
    assert_eq!(voice.get_velocity(), 35);
    voice.set_key_down(true);
    voice.stop_note(99, true);
    assert_eq!(voice.get_velocity(), 35);
    assert!(voice.take_restart());
    assert!(!voice.take_restart());
    assert_eq!(voice.get_active_note(), Some(15));
    assert!(voice.end_frame(false, false));
    assert!(!voice.take_restart());
    voice.start_note(16, 36, sound, 2);
    voice.reset(1000.0f32.to_bits(), 16);
    assert!(voice.take_restart());
    assert_eq!(voice.get_velocity(), 36);

    let mut oscillator = OscillatorVoice::new();
    assert!(!oscillator.take_restart());
    oscillator.start_note(69, 127, Arc::new(OscillatorSound::new()), 0);
    assert_eq!(oscillator.get_velocity(), 127);
    assert!(oscillator.take_restart());
    assert!(!oscillator.take_restart());
    assert!(oscillator.end_frame(false));
    oscillator.stop_note(0, false);
    assert!(!oscillator.take_restart());
}
