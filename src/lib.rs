//! A real-time sine generator and the sample window that hands its latest
//! block to a non-real-time reader.
//!
//! Phases are fixed-point: a full turn (2π) is `PHASE_PERIOD` units, so a
//! phase always fits a `u32` and wrapping is the `%` of integer arithmetic.
//! What turns a phase into a sample value is supplied by the caller.

mod error;
mod generator;
mod phase;
mod window;

pub use error::ProgramError;
pub use generator::{lemma_angle_in_turn, lemma_sample_phase_across_blocks, SineWave};
pub use phase::{
    lemma_blocks_concatenate, lemma_phase_in_turn, lemma_phase_step, phase_add, phase_after,
    phase_at, PHASE_PERIOD,
};
pub use window::SampleWindow;

use vstd::prelude::*;

verus! {

/// Frames requested from the audio device per callback.
pub const BUFFER_SIZE: usize = 1024;

/// Interleaved output channels per frame.
pub const CHANNEL_COUNT: usize = 2;

} // verus!
