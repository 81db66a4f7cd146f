use vstd::prelude::*;

verus! {

/// Longest block, in frames, that is prepared for where the audio device does
/// not say how long its blocks can get.
pub const DEFAULT_MAX_BUFFER_SIZE: usize = 4096;

/// The longest block, in frames, to prepare a processor for: the upper end of
/// the range of buffer sizes that the audio device supports, or 4096 where
/// the device names no range.
pub fn max_buffer_size(supported_max: Option<u32>) -> (frames: usize)
    ensures
        frames == match supported_max {
            Some(max) => max as usize,
            None => DEFAULT_MAX_BUFFER_SIZE,
        },
{
    match supported_max {
        Some(max) => max as usize,
        None => DEFAULT_MAX_BUFFER_SIZE,
    }
}

} // verus!
