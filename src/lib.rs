//! A real-time oscillator engine in fixed-point arithmetic: a table of voices
//! changed by commands, mixed by per-channel mean into stereo frames, passed
//! through a bounded buffer and read out as one interleaved sample stream.
use vstd::prelude::*;

pub mod buffer;
pub mod engine;
pub mod laws;
pub mod table;
pub mod voice;

verus! {

/// Frames produced per second of audio.
pub const SAMPLE_RATE: u64 = 48000;

} // verus!
