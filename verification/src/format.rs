//! Sample types, wire datatypes and channel layouts.
//!
//! A layout ([`Mono`], [`Stereo`], [`Interleaved`], [`Planar`]) fixes, at
//! compile time, the number of channels, the sample type and the shape of the
//! buffers that hold the audio. From a layout the crate derives the datatype
//! tag that the conversion engine expects and the number of frames that a
//! buffer holds.

use core::marker::PhantomData;
use vstd::prelude::*;

use crate::binary::{Binary32, Binary64};
use crate::buffer::{PlanarBuf, PlanarMut};

verus! {

/// The numeric type of one sample.
#[derive(Clone, Copy, PartialEq, Eq, Structural, Debug)]
pub enum SampleFormat {
    Int16,
    Int32,
    Float32,
    Float64,
}

/// The engine's tag for a sample type in one of its two arrangements:
/// interleaved (one buffer of whole frames) or planar (one buffer per
/// channel).
#[derive(Clone, Copy, PartialEq, Eq, Structural, Debug)]
pub enum Datatype {
    Float32Interleaved,
    Float64Interleaved,
    Int32Interleaved,
    Int16Interleaved,
    Float32Planar,
    Float64Planar,
    Int32Planar,
    Int16Planar,
}

/// What the engine adds to an interleaved datatype's code to name the planar
/// arrangement of the same sample type.
pub const PLANAR_CODE_OFFSET: u32 = 4;

/// The engine's code for a sample type in the interleaved arrangement.
pub open spec fn sample_code(format: SampleFormat) -> u32 {
    match format {
        SampleFormat::Float32 => 0,
        SampleFormat::Float64 => 1,
        SampleFormat::Int32 => 2,
        SampleFormat::Int16 => 3,
    }
}

/// The interleaved datatype of a sample type.
pub open spec fn interleaved_datatype(format: SampleFormat) -> Datatype {
    match format {
        SampleFormat::Int16 => Datatype::Int16Interleaved,
        SampleFormat::Int32 => Datatype::Int32Interleaved,
        SampleFormat::Float32 => Datatype::Float32Interleaved,
        SampleFormat::Float64 => Datatype::Float64Interleaved,
    }
}

/// The planar datatype of a sample type.
pub open spec fn planar_datatype(format: SampleFormat) -> Datatype {
    match format {
        SampleFormat::Int16 => Datatype::Int16Planar,
        SampleFormat::Int32 => Datatype::Int32Planar,
        SampleFormat::Float32 => Datatype::Float32Planar,
        SampleFormat::Float64 => Datatype::Float64Planar,
    }
}

impl Datatype {
    /// The sample type that this datatype tags.
    pub open spec fn sample(self) -> SampleFormat {
        match self {
            Datatype::Float32Interleaved | Datatype::Float32Planar => SampleFormat::Float32,
            Datatype::Float64Interleaved | Datatype::Float64Planar => SampleFormat::Float64,
            Datatype::Int32Interleaved | Datatype::Int32Planar => SampleFormat::Int32,
            Datatype::Int16Interleaved | Datatype::Int16Planar => SampleFormat::Int16,
        }
    }

    /// Whether this datatype names the planar arrangement.
    pub open spec fn is_planar(self) -> bool {
        match self {
            Datatype::Float32Planar
            | Datatype::Float64Planar
            | Datatype::Int32Planar
            | Datatype::Int16Planar => true,
            _ => false,
        }
    }

    /// The number by which the engine knows this datatype: the code of its
    /// sample type, plus the planar offset where it is planar.
    pub open spec fn spec_code(self) -> u32 {
        if self.is_planar() {
            (sample_code(self.sample()) + PLANAR_CODE_OFFSET) as u32
        } else {
            sample_code(self.sample())
        }
    }

    /// The number by which the engine knows this datatype.
    pub fn code(self) -> (code: u32)
        ensures
            code == self.spec_code(),
            code < 2 * PLANAR_CODE_OFFSET,
    {
        match self {
            Datatype::Float32Interleaved => 0,
            Datatype::Float64Interleaved => 1,
            Datatype::Int32Interleaved => 2,
            Datatype::Int16Interleaved => 3,
            Datatype::Float32Planar => 4,
            Datatype::Float64Planar => 5,
            Datatype::Int32Planar => 6,
            Datatype::Int16Planar => 7,
        }
    }
}

/// A type whose values are audio samples.
pub trait Sample: Copy + 'static {
    /// The sample format that values of this type have.
    spec fn format_spec() -> SampleFormat;

    /// The sample format that values of this type have.
    fn format() -> (format: SampleFormat)
        ensures
            format == Self::format_spec(),
    ;
}

impl Sample for i16 {
    open spec fn format_spec() -> SampleFormat {
        SampleFormat::Int16
    }

    fn format() -> (format: SampleFormat) {
        SampleFormat::Int16
    }
}

impl Sample for i32 {
    open spec fn format_spec() -> SampleFormat {
        SampleFormat::Int32
    }

    fn format() -> (format: SampleFormat) {
        SampleFormat::Int32
    }
}

impl Sample for Binary32 {
    open spec fn format_spec() -> SampleFormat {
        SampleFormat::Float32
    }

    fn format() -> (format: SampleFormat) {
        SampleFormat::Float32
    }
}

impl Sample for Binary64 {
    open spec fn format_spec() -> SampleFormat {
        SampleFormat::Float64
    }

    fn format() -> (format: SampleFormat) {
        SampleFormat::Float64
    }
}

/// The interleaved datatype of the sample type `S`.
pub fn interleaved<S: Sample>() -> (datatype: Datatype)
    ensures
        datatype == interleaved_datatype(S::format_spec()),
{
    match S::format() {
        SampleFormat::Int16 => Datatype::Int16Interleaved,
        SampleFormat::Int32 => Datatype::Int32Interleaved,
        SampleFormat::Float32 => Datatype::Float32Interleaved,
        SampleFormat::Float64 => Datatype::Float64Interleaved,
    }
}

/// The planar datatype of the sample type `S`.
pub fn planar<S: Sample>() -> (datatype: Datatype)
    ensures
        datatype == planar_datatype(S::format_spec()),
{
    match S::format() {
        SampleFormat::Int16 => Datatype::Int16Planar,
        SampleFormat::Int32 => Datatype::Int32Planar,
        SampleFormat::Float32 => Datatype::Float32Planar,
        SampleFormat::Float64 => Datatype::Float64Planar,
    }
}

/// Every sample type has exactly one interleaved and one planar datatype, and
/// each of the two tags that sample type in that arrangement; the planar code
/// is the interleaved code plus the planar offset.
pub proof fn lemma_datatype_of_sample(format: SampleFormat)
    ensures
        interleaved_datatype(format).sample() == format,
        !interleaved_datatype(format).is_planar(),
        planar_datatype(format).sample() == format,
        planar_datatype(format).is_planar(),
        interleaved_datatype(format).spec_code() == sample_code(format),
        planar_datatype(format).spec_code() == sample_code(format) + PLANAR_CODE_OFFSET,
{
}

/// Every datatype is the interleaved or the planar datatype of its sample
/// type: no tag stands outside the mapping from sample types.
pub proof fn lemma_datatype_exhaustive(datatype: Datatype)
    ensures
        datatype == if datatype.is_planar() {
            planar_datatype(datatype.sample())
        } else {
            interleaved_datatype(datatype.sample())
        },
{
}

/// Two datatypes with the same code are the same datatype, and every code
/// lies below twice the planar offset.
pub proof fn lemma_code_injective(a: Datatype, b: Datatype)
    ensures
        a.spec_code() == b.spec_code() ==> a == b,
        a.spec_code() < 2 * PLANAR_CODE_OFFSET,
{
}

/// Every number below twice the planar offset is the code of a datatype.
pub proof fn lemma_code_surjective(code: u32)
    requires
        code < 2 * PLANAR_CODE_OFFSET,
    ensures
        exists|datatype: Datatype| datatype.spec_code() == code,
{
    if code == 0 {
        assert(Datatype::Float32Interleaved.spec_code() == code);
    } else if code == 1 {
        assert(Datatype::Float64Interleaved.spec_code() == code);
    } else if code == 2 {
        assert(Datatype::Int32Interleaved.spec_code() == code);
    } else if code == 3 {
        assert(Datatype::Int16Interleaved.spec_code() == code);
    } else if code == 4 {
        assert(Datatype::Float32Planar.spec_code() == code);
    } else if code == 5 {
        assert(Datatype::Float64Planar.spec_code() == code);
    } else if code == 6 {
        assert(Datatype::Int32Planar.spec_code() == code);
    } else {
        assert(Datatype::Int16Planar.spec_code() == code);
    }
}

/// Different sample types never share a datatype, in either arrangement, and
/// no interleaved datatype is also a planar one.
pub proof fn lemma_sample_mapping_injective(a: SampleFormat, b: SampleFormat)
    ensures
        interleaved_datatype(a) == interleaved_datatype(b) ==> a == b,
        planar_datatype(a) == planar_datatype(b) ==> a == b,
        sample_code(a) == sample_code(b) ==> a == b,
        interleaved_datatype(a) != planar_datatype(b),
{
}

/// A channel layout: how many channels a stream has, what type its samples
/// have and in which buffers its frames lie.
pub trait IoFormat {
    /// The type of one sample.
    type Sample: Sample;

    /// The buffers from which input frames are read.
    type Input<'a>: ?Sized;

    /// The buffers into which output frames are written.
    type Output<'a>: ?Sized;

    /// The number of channels of every frame.
    spec fn spec_channels() -> usize;

    /// The datatype by which the engine knows this layout's buffers.
    spec fn spec_datatype() -> Datatype;

    /// The number of frames that an input buffer holds.
    spec fn input_frames<'a>(input: &Self::Input<'a>) -> nat;

    /// The number of frames that an output buffer has room for.
    spec fn output_frames<'a>(output: &Self::Output<'a>) -> nat;

    /// The number of channels of every frame.
    fn channels() -> (count: usize)
        ensures
            count == Self::spec_channels(),
    ;

    /// The datatype by which the engine knows this layout's buffers; it tags
    /// the layout's sample type.
    fn datatype() -> (datatype: Datatype)
        ensures
            datatype == Self::spec_datatype(),
            datatype.sample() == <Self::Sample as Sample>::format_spec(),
    ;

    /// The number of frames that an input buffer holds.
    fn input_len<'a>(input: &Self::Input<'a>) -> (frames: usize)
        ensures
            frames == Self::input_frames(input),
    ;

    /// The number of frames that an output buffer has room for.
    fn output_len<'a>(output: &Self::Output<'a>) -> (frames: usize)
        ensures
            frames == Self::output_frames(output),
    ;
}

/// One channel: a buffer is a sequence of samples, each a frame.
pub struct Mono<S: Sample>(PhantomData<S>);

impl<S: Sample> IoFormat for Mono<S> {
    type Sample = S;

    type Input<'a> = [S];

    type Output<'a> = [S];

    open spec fn spec_channels() -> usize {
        1
    }

    open spec fn spec_datatype() -> Datatype {
        interleaved_datatype(S::format_spec())
    }

    open spec fn input_frames<'a>(input: &[S]) -> nat {
        input@.len()
    }

    open spec fn output_frames<'a>(output: &[S]) -> nat {
        output@.len()
    }

    fn channels() -> (count: usize) {
        1
    }

    fn datatype() -> (datatype: Datatype) {
        interleaved::<S>()
    }

    fn input_len<'a>(input: &[S]) -> (frames: usize) {
        input.len()
    }

    fn output_len<'a>(output: &[S]) -> (frames: usize) {
        output.len()
    }
}

/// Two interleaved channels: a buffer is a sequence of two-sample frames.
pub struct Stereo<S: Sample>(PhantomData<S>);

impl<S: Sample> IoFormat for Stereo<S> {
    type Sample = S;

    type Input<'a> = [[S; 2]];

    type Output<'a> = [[S; 2]];

    open spec fn spec_channels() -> usize {
        2
    }

    open spec fn spec_datatype() -> Datatype {
        interleaved_datatype(S::format_spec())
    }

    open spec fn input_frames<'a>(input: &[[S; 2]]) -> nat {
        input@.len()
    }

    open spec fn output_frames<'a>(output: &[[S; 2]]) -> nat {
        output@.len()
    }

    fn channels() -> (count: usize) {
        2
    }

    fn datatype() -> (datatype: Datatype) {
        interleaved::<S>()
    }

    fn input_len<'a>(input: &[[S; 2]]) -> (frames: usize) {
        input.len()
    }

    fn output_len<'a>(output: &[[S; 2]]) -> (frames: usize) {
        output.len()
    }
}

/// `CHANNELS` interleaved channels: a buffer is a sequence of frames of
/// `CHANNELS` samples each.
pub struct Interleaved<S: Sample, const CHANNELS: usize>(PhantomData<S>);

impl<S: Sample, const CHANNELS: usize> IoFormat for Interleaved<S, CHANNELS> {
    type Sample = S;

    type Input<'a> = [[S; CHANNELS]];

    type Output<'a> = [[S; CHANNELS]];

    open spec fn spec_channels() -> usize {
        CHANNELS
    }

    open spec fn spec_datatype() -> Datatype {
        interleaved_datatype(S::format_spec())
    }

    open spec fn input_frames<'a>(input: &[[S; CHANNELS]]) -> nat {
        input@.len()
    }

    open spec fn output_frames<'a>(output: &[[S; CHANNELS]]) -> nat {
        output@.len()
    }

    fn channels() -> (count: usize) {
        CHANNELS
    }

    fn datatype() -> (datatype: Datatype) {
        interleaved::<S>()
    }

    fn input_len<'a>(input: &[[S; CHANNELS]]) -> (frames: usize) {
        input.len()
    }

    fn output_len<'a>(output: &[[S; CHANNELS]]) -> (frames: usize) {
        output.len()
    }
}

/// `CHANNELS` planar channels: a buffer holds one plane of samples for each
/// channel, and its frames are the positions common to all planes.
pub struct Planar<S: Sample, const CHANNELS: usize>(PhantomData<S>);

impl<S: Sample, const CHANNELS: usize> IoFormat for Planar<S, CHANNELS> {
    type Sample = S;

    type Input<'a> = PlanarBuf<'a, S, CHANNELS>;

    type Output<'a> = PlanarMut<'a, S, CHANNELS>;

    open spec fn spec_channels() -> usize {
        CHANNELS
    }

    open spec fn spec_datatype() -> Datatype {
        planar_datatype(S::format_spec())
    }

    open spec fn input_frames<'a>(input: &PlanarBuf<'a, S, CHANNELS>) -> nat {
        input.spec_frames()
    }

    open spec fn output_frames<'a>(output: &PlanarMut<'a, S, CHANNELS>) -> nat {
        output.spec_frames()
    }

    fn channels() -> (count: usize) {
        CHANNELS
    }

    fn datatype() -> (datatype: Datatype) {
        planar::<S>()
    }

    fn input_len<'a>(input: &PlanarBuf<'a, S, CHANNELS>) -> (frames: usize) {
        input.frames()
    }

    fn output_len<'a>(output: &PlanarMut<'a, S, CHANNELS>) -> (frames: usize) {
        output.frames()
    }
}

} // verus!
