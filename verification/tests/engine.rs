use sampler::base::{MidiMessage, ParameterSnapshot, ProcessorProxySource};
use sampler::engine::cpal_audio_engine::{max_buffer_size, DEFAULT_MAX_BUFFER_SIZE};
use sampler::engine::midir_midi_engine::receive;
use sampler::processing::{Sampler, SamplerVoice};
use sampler::test::{DummyProcessor, DummySound, DummyVoice};

#[test]
fn buffer_size_of_a_device() {
    assert_eq!(max_buffer_size(Some(512)), 512);
    assert_eq!(max_buffer_size(Some(0)), 0);
    assert_eq!(max_buffer_size(Some(u32::MAX)), u32::MAX as usize);
    assert_eq!(max_buffer_size(None), 4096);
    assert_eq!(DEFAULT_MAX_BUFFER_SIZE, 4096);
}

#[test]
fn received_bytes_are_parsed_and_handled() {
    let mut processor = DummyProcessor::new();
    assert!(receive(&mut processor, &[0x91, 0x3C, 0x64]));
    assert!(receive(&mut processor, &[0x81, 0x3C, 0x00]));
    assert!(receive(&mut processor, &[0xB2, 0x40, 0x7F]));
    assert_eq!(
        processor.midi_messages,
        vec![MidiMessage::NoteOn(1, 0x3C, 0x64), MidiMessage::NoteOff(1, 0x3C, 0x00), MidiMessage::ControlChange(2, 0x40, 0x7F)]
    );
}

#[test]
fn other_bytes_are_dropped() {
    let mut processor = DummyProcessor::new();
    assert!(!receive(&mut processor, &[]));
    assert!(!receive(&mut processor, &[0x90, 0x3C]));
    assert!(!receive(&mut processor, &[0xF8, 0x00, 0x00]));
    assert!(!receive(&mut processor, &[0x90, 0x3C, 0x64, 0x00]));
    assert!(processor.midi_messages.is_empty());
}

#[test]
fn received_bytes_play_a_sampler() {
    let mut sampler = Sampler::<DummySound, DummyVoice>::new();
    sampler.add_sound(DummySound::new());
    sampler.add_voice(DummyVoice::new());
    assert!(receive(&mut sampler, &[0x90, 60, 100]));
    assert_eq!(sampler.voices()[0].get_active_note(), Some(60));
    assert!(!receive(&mut sampler, &[0xE0, 60, 100]));
    assert_eq!(sampler.voices()[0].get_active_note(), Some(60));
}

#[test]
fn received_bytes_travel_through_the_ring() {
    let (mut source, mut proxy, mut from_source) = ProcessorProxySource::new(8);
    let mut processor = DummyProcessor::new();
    assert!(receive(&mut proxy, &[0x90, 60, 100]));
    assert!(!receive(&mut proxy, &[0x00, 60, 100]));
    source.handle_messages(&mut processor);
    assert_eq!(processor.midi_messages, vec![MidiMessage::NoteOn(0, 60, 100)]);
    let mut snapshot = ParameterSnapshot::new();
    snapshot.record(&mut from_source);
    assert_eq!(snapshot.get_parameter(0), None);
}
