use super::midi_receiver::MidiReceiver;
use super::parameter::{FloatBits, Parameter, ParameterId, ParameterValue};
use vstd::prelude::*;

verus! {

/// Defines a generic audio processor, e.g. an instrument or effect.
///
/// This is the control surface of a processor. Rendering audio into a buffer
/// belongs to whoever owns the signal path and is no part of it.
pub trait AudioProcessor: Send + MidiReceiver {
    /// The value that the processor reports for a parameter.
    spec fn parameter(&self, id: ParameterId) -> Option<ParameterValue>;

    /// The parameters that the processor offers.
    spec fn parameters(&self) -> Seq<Parameter>;

    /// Whether `after` is the processor once it was reset.
    spec fn was_reset(&self, sample_rate: FloatBits, max_buffer_size: usize, after: &Self) -> bool;

    /// Whether `after` is the processor once its channel layout was set.
    spec fn layout_set(&self, input_channels: u16, output_channels: u16, after: &Self) -> bool;

    /// Whether `after` is the processor once a parameter was set.
    spec fn parameter_set(&self, id: ParameterId, value: ParameterValue, after: &Self) -> bool;

    /// Gets a parameter.
    fn get_parameter(&self, id: ParameterId) -> (value: Option<ParameterValue>)
        ensures
            value == self.parameter(id),
    ;

    /// Returns a list of available parameters.
    fn list_parameters(&self) -> (list: &[Parameter])
        ensures
            list@ == self.parameters(),
    ;

    /// Resets the processor's internal parameters.
    fn reset(&mut self, sample_rate: FloatBits, max_buffer_size: usize)
        ensures
            old(self).was_reset(sample_rate, max_buffer_size, final(self)),
    ;

    /// Sets channel layout.
    fn set_channel_layout(&mut self, input_channels: u16, output_channels: u16)
        ensures
            old(self).layout_set(input_channels, output_channels, final(self)),
    ;

    /// Sets a parameter.
    fn set_parameter(&mut self, id: ParameterId, value: ParameterValue)
        ensures
            old(self).parameter_set(id, value, final(self)),
    ;
}

} // verus!
