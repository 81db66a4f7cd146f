use crate::base::{
    AudioProcessor, FloatBits, MidiMessage, MidiReceiver, Parameter, ParameterId, ParameterValue,
};
use std::collections::HashMap;
use vstd::prelude::*;

verus! {

/// Dummy audio processor for testing purposes: it records the MIDI messages
/// and the parameter values that it is handed.
pub struct DummyProcessor {
    pub midi_messages: Vec<MidiMessage>,
    listed: Vec<Parameter>,
    parameter: HashMap<ParameterId, ParameterValue>,
}

impl DummyProcessor {
    /// The recorded parameter values.
    pub closed spec fn values(&self) -> Map<ParameterId, ParameterValue> {
        self.parameter@
    }

    /// The MIDI messages seen so far, oldest first.
    pub closed spec fn messages(&self) -> Seq<MidiMessage> {
        self.midi_messages@
    }

    /// The listed parameters.
    pub closed spec fn listed(&self) -> Seq<Parameter> {
        self.listed@
    }

    /// A processor that lists the parameters 0 and 1, both with the value
    /// whose bits are all zero, and that has seen no message.
    pub fn new() -> (processor: DummyProcessor)
        ensures
            processor.messages() == Seq::<MidiMessage>::empty(),
            processor.values() == Map::<ParameterId, ParameterValue>::empty().insert(
                0,
                ParameterValue::Float(0),
            ).insert(1, ParameterValue::Float(0)),
            processor.listed().len() == 2,
            processor.listed()[0].id == 0,
            processor.listed()[1].id == 1,
    {
        broadcast use vstd::std_specs::hash::group_hash_axioms;

        let mut listed: Vec<Parameter> = Vec::new();
        listed.push(Parameter::new(0, "param0"));
        listed.push(Parameter::new(1, "param1"));
        let mut processor = DummyProcessor {
            midi_messages: Vec::new(),
            listed,
            parameter: HashMap::new(),
        };
        processor.set_parameter(0, ParameterValue::Float(0));
        processor.set_parameter(1, ParameterValue::Float(0));
        processor
    }
}

impl AudioProcessor for DummyProcessor {
    open spec fn parameter(&self, id: ParameterId) -> Option<ParameterValue> {
        if self.values().contains_key(id) {
            Some(self.values()[id])
        } else {
            None
        }
    }

    open spec fn parameters(&self) -> Seq<Parameter> {
        self.listed()
    }

    open spec fn was_reset(
        &self,
        sample_rate: FloatBits,
        max_buffer_size: usize,
        after: &Self,
    ) -> bool {
        after == self
    }

    open spec fn layout_set(
        &self,
        input_channels: u16,
        output_channels: u16,
        after: &Self,
    ) -> bool {
        after == self
    }

    open spec fn parameter_set(
        &self,
        id: ParameterId,
        value: ParameterValue,
        after: &Self,
    ) -> bool {
        &&& after.values() == self.values().insert(id, value)
        &&& after.listed() == self.listed()
        &&& after.messages() == self.messages()
    }

    fn get_parameter(&self, id: ParameterId) -> (value: Option<ParameterValue>) {
        broadcast use vstd::std_specs::hash::group_hash_axioms;

        match self.parameter.get(&id) {
            Some(value) => Some(*value),
            None => None,
        }
    }

    fn list_parameters(&self) -> (list: &[Parameter]) {
        self.listed.as_slice()
    }

    fn reset(&mut self, _sample_rate: FloatBits, _max_buffer_size: usize) {
    }

    fn set_channel_layout(&mut self, _input_channels: u16, _output_channels: u16) {
    }

    fn set_parameter(&mut self, id: ParameterId, value: ParameterValue) {
        broadcast use vstd::std_specs::hash::group_hash_axioms;

        self.parameter.insert(id, value);
    }
}

impl MidiReceiver for DummyProcessor {
    open spec fn handled(&self, message: MidiMessage, after: &Self) -> bool {
        &&& after.messages() == self.messages().push(message)
        &&& after.values() == self.values()
        &&& after.listed() == self.listed()
    }

    fn handle_midi_message(&mut self, message: MidiMessage) {
        self.midi_messages.push(message);
    }
}

} // verus!
