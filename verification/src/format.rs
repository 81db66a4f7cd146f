//! Patch formats that samplers are built from.

pub mod sfz_loader;

pub use sfz_loader::{AudioFileSoundBuilder, RegionOpcode, SfzLoader, SoundRequest};
