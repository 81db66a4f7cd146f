use sampler::base::processor_proxy::dispatch;
use sampler::base::{
    AudioProcessor, MidiMessage, MidiReceiver, ParameterSnapshot, ParameterValue, ProcessorMessage,
    ProcessorProxySource, ProxyMessage,
};
use sampler::test::DummyProcessor;
use std::sync::{Arc, Mutex};

fn float(value: f32) -> ParameterValue {
    ParameterValue::Float(value.to_bits())
}

#[test]
fn send_midi_to_source() {
    let (mut source, mut proxy, _from_source) = ProcessorProxySource::new(8);
    let mut processor = DummyProcessor::new();
    let midi_message = MidiMessage::NoteOn(0x01, 0x48, 0x21);

    proxy.handle_midi_message(midi_message);
    source.handle_messages(&mut processor);

    assert_eq!(processor.midi_messages.len(), 1);
    assert_eq!(processor.midi_messages[0], midi_message);
}

#[test]
fn send_parameter_to_proxies() {
    let (mut source, _sender, mut from_source) = ProcessorProxySource::new(8);
    // Two proxies read the one snapshot, each through the same lock.
    let proxy1 = Arc::new(Mutex::new(ParameterSnapshot::new()));
    let proxy2 = proxy1.clone();

    source.update_parameter(0, float(1.2));
    source.update_parameter(1, float(4.2));
    proxy1.lock().unwrap().record(&mut from_source);

    assert_eq!(proxy1.lock().unwrap().get_parameter(0), Some(float(1.2)));
    assert_eq!(proxy2.lock().unwrap().get_parameter(1), Some(float(4.2)));
}

#[test]
fn send_parameter_to_source() {
    let (mut source, sender, _from_source) = ProcessorProxySource::new(8);
    // Two proxies share the one sending end, each through the same lock.
    let proxy1 = Arc::new(Mutex::new(sender));
    let proxy2 = proxy1.clone();
    let mut processor = DummyProcessor::new();

    proxy1.lock().unwrap().set_parameter(0, float(1.2));
    proxy2.lock().unwrap().set_parameter(1, float(4.2));
    source.handle_messages(&mut processor);

    assert_eq!(processor.get_parameter(0), Some(float(1.2)));
    assert_eq!(processor.get_parameter(1), Some(float(4.2)));
}

#[test]
fn messages_arrive_in_the_order_sent() {
    let (mut source, mut proxy, _from_source) = ProcessorProxySource::new(8);
    let mut processor = DummyProcessor::new();

    proxy.handle_midi_message(MidiMessage::NoteOn(0, 60, 100));
    proxy.set_parameter(0, float(0.25));
    proxy.handle_midi_message(MidiMessage::NoteOff(0, 60, 0));
    proxy.set_parameter(0, float(0.75));
    proxy.handle_midi_message(MidiMessage::ControlChange(2, 0x40, 127));
    source.handle_messages(&mut processor);

    assert_eq!(
        processor.midi_messages,
        vec![
            MidiMessage::NoteOn(0, 60, 100),
            MidiMessage::NoteOff(0, 60, 0),
            MidiMessage::ControlChange(2, 0x40, 127)
        ]
    );
    assert_eq!(processor.get_parameter(0), Some(float(0.75)));
}

#[test]
fn nothing_pending_changes_nothing() {
    let (mut source, _proxy, mut from_source) = ProcessorProxySource::new(8);
    let mut processor = DummyProcessor::new();
    source.handle_messages(&mut processor);
    assert!(processor.midi_messages.is_empty());
    assert_eq!(processor.get_parameter(0), Some(ParameterValue::Float(0)));

    let mut snapshot = ParameterSnapshot::new();
    snapshot.record(&mut from_source);
    assert_eq!(snapshot.get_parameter(0), None);
}

#[test]
fn a_full_ring_drops_what_comes_after() {
    let (mut source, mut proxy, mut from_source) = ProcessorProxySource::new(4);
    let mut processor = DummyProcessor::new();
    for note in 0..10u8 {
        proxy.handle_midi_message(MidiMessage::NoteOn(0, note, 100));
    }
    source.handle_messages(&mut processor);
    assert_eq!(
        processor.midi_messages,
        vec![
            MidiMessage::NoteOn(0, 0, 100),
            MidiMessage::NoteOn(0, 1, 100),
            MidiMessage::NoteOn(0, 2, 100),
            MidiMessage::NoteOn(0, 3, 100)
        ]
    );
    // The ring has room again.
    proxy.handle_midi_message(MidiMessage::NoteOn(0, 99, 100));
    source.handle_messages(&mut processor);
    assert_eq!(processor.midi_messages.len(), 5);
    assert_eq!(processor.midi_messages[4], MidiMessage::NoteOn(0, 99, 100));

    let mut snapshot = ParameterSnapshot::new();
    for id in 0..10u32 {
        source.update_parameter(id, ParameterValue::Float(id));
    }
    snapshot.record(&mut from_source);
    assert_eq!(snapshot.get_parameter(3), Some(ParameterValue::Float(3)));
    assert_eq!(snapshot.get_parameter(4), None);
}

#[test]
fn a_later_update_replaces_an_earlier_one() {
    let mut snapshot = ParameterSnapshot::new();
    assert_eq!(snapshot.get_parameter(7), None);
    snapshot.update(ProcessorMessage::UpdateParameter(7, float(1.0)));
    assert_eq!(snapshot.get_parameter(7), Some(float(1.0)));
    snapshot.update(ProcessorMessage::UpdateParameter(8, float(2.0)));
    snapshot.update(ProcessorMessage::UpdateParameter(7, float(3.0)));
    assert_eq!(snapshot.get_parameter(7), Some(float(3.0)));
    assert_eq!(snapshot.get_parameter(8), Some(float(2.0)));
    assert_eq!(snapshot.get_parameter(9), None);
}

#[test]
fn dispatch_hands_the_message_over() {
    let mut processor = DummyProcessor::new();
    dispatch(&mut processor, ProxyMessage::HandleMidi(MidiMessage::NoteOff(1, 2, 3)));
    assert_eq!(processor.midi_messages, vec![MidiMessage::NoteOff(1, 2, 3)]);
    assert_eq!(processor.get_parameter(1), Some(ParameterValue::Float(0)));
    dispatch(&mut processor, ProxyMessage::SetParameter(1, float(0.5)));
    assert_eq!(processor.midi_messages.len(), 1);
    assert_eq!(processor.get_parameter(1), Some(float(0.5)));
    assert_eq!(processor.get_parameter(0), Some(ParameterValue::Float(0)));
}

#[test]
fn dummy_processor_lists_two_parameters() {
    let mut processor = DummyProcessor::new();
    let ids: Vec<u32> = processor.list_parameters().iter().map(|parameter| parameter.id).collect();
    assert_eq!(ids, vec![0, 1]);
    let names: Vec<&str> = processor.list_parameters().iter().map(|parameter| parameter.name).collect();
    assert_eq!(names, vec!["param0", "param1"]);
    assert_eq!(processor.get_parameter(0), Some(ParameterValue::Float(0)));
    assert_eq!(processor.get_parameter(1), Some(ParameterValue::Float(0)));
    assert_eq!(processor.get_parameter(2), None);
    processor.reset(1000.0f32.to_bits(), 16);
    processor.set_channel_layout(1, 2);
    assert_eq!(processor.get_parameter(0), Some(ParameterValue::Float(0)));
    assert!(processor.midi_messages.is_empty());
}
