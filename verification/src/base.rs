//! Vocabulary shared by every processor: MIDI messages and parameters, and
//! the messages that reach a processor on the audio thread.

pub mod audio_processor;
pub mod midi_message;
pub mod midi_receiver;
pub mod parameter;
pub mod processor_proxy;

pub use audio_processor::AudioProcessor;
pub use midi_message::{MidiKind, MidiMessage};
pub use midi_receiver::MidiReceiver;
pub use parameter::{FloatBits, Parameter, ParameterId, ParameterValue};
pub use processor_proxy::{
    ParameterSnapshot, ProcessorMessage, ProcessorProxySource, ProxyMessage, ProxySender,
};
