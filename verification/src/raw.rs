//! The records that cross the boundary to the conversion engine.
//!
//! This crate never calls the engine. It computes what a call is to be made
//! with, as one of the records below, and it reads what the engine answered,
//! as a diagnostic, a [`ProcessReply`] or a [`DrainReply`]. Whoever drives
//! the engine turns these plain values into the engine's own and back.

use vstd::prelude::*;

use crate::binary::Binary64;
use crate::format::Datatype;

verus! {

/// The engine's record of filter quality.
#[derive(Clone, Copy, PartialEq, Eq, Structural, Debug)]
pub struct RawQualitySpec {
    /// Conversion precision, in bits.
    pub precision: Binary64,
    /// Phase response: 0 is minimum, 50 linear, 100 maximum.
    pub phase_response: Binary64,
    /// End of the preserved band, as a fraction of the Nyquist frequency.
    pub passband_end: Binary64,
    /// Start of the rejected band, as a fraction of the Nyquist frequency.
    pub stopband_begin: Binary64,
    /// The engine's quality flag word.
    pub flags: u64,
}

/// The engine's record of run-time resources.
#[derive(Clone, Copy, PartialEq, Eq, Structural, Debug)]
pub struct RawRuntimeSpec {
    /// Base-two logarithm of the smallest transform size.
    pub log2_min_dft_size: u32,
    /// Base-two logarithm of the size from which a transform counts as large.
    pub log2_large_dft_size: u32,
    /// Size of the coefficient table, in kilobytes.
    pub coef_size_kbytes: u32,
    /// Number of threads; zero leaves the choice to the engine.
    pub num_threads: u32,
    /// The engine's run-time flag word.
    pub flags: u64,
}

/// The arguments with which the engine is asked for the quality record of a
/// recipe.
#[derive(Clone, Copy, PartialEq, Eq, Structural, Debug)]
pub struct QualityCall {
    /// The code of the recipe.
    pub recipe: u64,
    /// The quality flag word.
    pub flags: u64,
}

/// The engine's description of the samples that it reads and writes.
#[derive(Clone, Copy, PartialEq, Eq, Structural, Debug)]
pub struct IoSpec {
    /// The datatype of the input buffers.
    pub itype: Datatype,
    /// The datatype of the output buffers.
    pub otype: Datatype,
    /// The factor by which the engine scales every output sample.
    pub scale: Binary64,
}

/// The arguments of the engine call that creates a converter.
#[derive(Clone, Copy, PartialEq, Eq, Structural, Debug)]
pub struct CreateCall {
    /// The sample rate of the input.
    pub input_rate: Binary64,
    /// The sample rate of the output.
    pub output_rate: Binary64,
    /// The number of channels.
    pub channels: u32,
    /// The input and output datatypes.
    pub io: IoSpec,
    /// The filter quality.
    pub quality: RawQualitySpec,
    /// The run-time resources.
    pub runtime: RawRuntimeSpec,
}

/// The frame counts of the engine call that converts audio.
#[derive(Clone, Copy, PartialEq, Eq, Structural, Debug)]
pub struct ProcessCall {
    /// The number of input frames offered, or nothing where the call tells
    /// the engine that the input has ended.
    pub input_frames: Option<usize>,
    /// The number of output frames that there is room for.
    pub output_frames: usize,
}

/// The arguments of the engine call that changes the ratio of input rate to
/// output rate.
#[derive(Clone, Copy, PartialEq, Eq, Structural, Debug)]
pub struct RatioCall {
    /// The new ratio of input rate to output rate.
    pub ratio: Binary64,
    /// The number of output frames over which the engine moves to the new
    /// ratio; zero changes the ratio at once.
    pub slew_len: usize,
}

/// What the engine answered to a [`ProcessCall`] that offered input.
#[derive(Clone, Copy, Debug, PartialEq, Eq)]
pub struct ProcessReply {
    /// The engine's diagnostic, or nothing where the call succeeded.
    pub diagnostic: Option<&'static str>,
    /// The number of input frames that the engine consumed.
    pub input_done: usize,
    /// The number of output frames that the engine produced.
    pub output_done: usize,
}

/// What the engine answered to a [`ProcessCall`] that offered no input: in
/// such a call the engine counts no input frames.
#[derive(Clone, Copy, Debug, PartialEq, Eq)]
pub struct DrainReply {
    /// The engine's diagnostic, or nothing where the call succeeded.
    pub diagnostic: Option<&'static str>,
    /// The number of output frames that the engine produced.
    pub output_done: usize,
}

} // verus!
