//! Processors that turn MIDI into sound.

pub mod sampler;

pub use sampler::{
    AdsrStage, AdsrTimes, AudioFileSound, AudioFileSoundView, AudioFileVoice, LinearAdsr,
    MidiRegion, OscillatorSound, OscillatorVoice, Sampler, SamplerSound, SamplerState,
    SamplerVoice, VoiceState,
};
