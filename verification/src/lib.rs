//! Control core of a real-time polyphonic sampler.
//!
//! The crate holds the parts of the engine that decide rather than compute
//! audio: MIDI parsing, the voice scheduler with its sustain-pedal rules, the
//! note lifecycle of a voice, the layout of sample data, and the messages that
//! travel between the control thread and the audio thread. Every real-valued
//! quantity (a sample, a gain, a time in seconds, a parameter value) is carried
//! as the bit pattern of an IEEE-754 single-precision number; the library
//! stores and forwards such values and never does arithmetic on them.

pub mod base;
pub mod engine;
pub mod format;
pub mod processing;
