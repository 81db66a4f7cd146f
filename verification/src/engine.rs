//! What stands between a processor and the audio and MIDI devices.

pub mod cpal_audio_engine;
pub mod cpal_processor;
pub mod midir_midi_engine;

pub use cpal_processor::CpalProcessor;
