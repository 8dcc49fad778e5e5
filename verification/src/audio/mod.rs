//! The pieces of the sound pipeline that are integer logic: the windowed ring buffer that
//! carries samples from the console to the audio device, and its sizes.

pub mod ring_buffer;

use vstd::prelude::*;

verus! {

/// How many samples the audio device reads at once.
pub const AUDIO_SAMPLE_SIZE: usize = 128;

/// How many samples the ring buffer between the console and the audio device holds.
pub const BUFFER_SIZE: usize = 1024;

} // verus!
