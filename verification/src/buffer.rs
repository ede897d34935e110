//! Planar buffers: one slice of samples per channel, all of one length.
//!
//! The conversion engine reads and writes planar audio through one base
//! address per channel and a single frame count, so it cannot notice planes
//! of different lengths. A [`PlanarBuf`] or [`PlanarMut`] exists only for
//! planes of one common length, which is its frame count.

use vstd::prelude::*;

use crate::format::Sample;

verus! {

/// The lengths of the planes of a read-only planar buffer, channel by channel.
pub open spec fn plane_lengths<S, const CHANNELS: usize>(planes: [&[S]; CHANNELS]) -> Seq<nat> {
    Seq::new(CHANNELS as nat, |channel: int| planes@[channel]@.len())
}

/// The lengths of the planes of a writable planar buffer, channel by channel.
pub open spec fn plane_lengths_mut<S, const CHANNELS: usize>(
    planes: [&mut [S]; CHANNELS],
) -> Seq<nat> {
    Seq::new(CHANNELS as nat, |channel: int| planes@[channel]@.len())
}

/// Whether every plane is as long as the first.
pub open spec fn uniform(lengths: Seq<nat>) -> bool {
    forall|channel: int| 0 <= channel < lengths.len() ==> #[trigger] lengths[channel] == lengths[0]
}

/// The number of frames in planes of the given lengths: the length of the
/// first plane, and zero where there is no plane at all.
pub open spec fn common_length(lengths: Seq<nat>) -> nat {
    if lengths.len() == 0 {
        0
    } else {
        lengths[0]
    }
}

/// Whether `mismatch` describes the first plane whose length differs from
/// that of plane zero.
pub open spec fn first_mismatch(lengths: Seq<nat>, mismatch: PlaneMismatch) -> bool {
    &&& mismatch.index < lengths.len()
    &&& mismatch.length == lengths[mismatch.index as int]
    &&& mismatch.expected == lengths[0]
    &&& mismatch.length != mismatch.expected
    &&& forall|channel: int|
        0 <= channel < mismatch.index ==> #[trigger] lengths[channel] == lengths[0]
}

/// Planes are ragged exactly where they have a first mismatch: where all
/// planes have one length there is none, and where they do not there is one.
pub proof fn lemma_ragged_planes_have_first_mismatch(lengths: Seq<nat>)
    requires
        lengths.len() <= usize::MAX,
        forall|channel: int| 0 <= channel < lengths.len() ==> #[trigger] lengths[channel]
            <= usize::MAX,
    ensures
        !uniform(lengths) <==> exists|mismatch: PlaneMismatch| first_mismatch(lengths, mismatch),
{
    if !uniform(lengths) {
        let ragged = choose|channel: int|
            0 <= channel < lengths.len() && #[trigger] lengths[channel] != lengths[0];
        let index = least_ragged(lengths, ragged);
        let witness = PlaneMismatch {
            index: index as usize,
            length: lengths[index] as usize,
            expected: lengths[0] as usize,
        };
        assert(lengths[0] <= usize::MAX);
        assert(lengths[index] <= usize::MAX);
        assert(first_mismatch(lengths, witness));
    } else {
        assert forall|mismatch: PlaneMismatch| !first_mismatch(lengths, mismatch) by {
            if first_mismatch(lengths, mismatch) {
                assert(lengths[mismatch.index as int] == lengths[0]);
            }
        }
    }
}

/// The least channel, up to a channel whose plane differs from plane zero,
/// whose plane differs from plane zero.
proof fn least_ragged(lengths: Seq<nat>, ragged: int) -> (least: int)
    requires
        0 <= ragged < lengths.len(),
        lengths[ragged] != lengths[0],
    ensures
        0 <= least <= ragged,
        lengths[least] != lengths[0],
        forall|channel: int| 0 <= channel < least ==> #[trigger] lengths[channel] == lengths[0],
    decreases ragged,
{
    if exists|channel: int| 0 <= channel < ragged && #[trigger] lengths[channel] != lengths[0] {
        let earlier = choose|channel: int|
            0 <= channel < ragged && #[trigger] lengths[channel] != lengths[0];
        least_ragged(lengths, earlier)
    } else {
        ragged
    }
}

/// Ragged planes have one first mismatch only: what is reported of them is
/// fixed by their lengths.
pub proof fn lemma_first_mismatch_unique(lengths: Seq<nat>, a: PlaneMismatch, b: PlaneMismatch)
    requires
        first_mismatch(lengths, a),
        first_mismatch(lengths, b),
    ensures
        a == b,
{
    if a.index < b.index {
        assert(lengths[a.index as int] == lengths[0]);
    }
    if b.index < a.index {
        assert(lengths[b.index as int] == lengths[0]);
    }
}

/// The first plane of a ragged set of planes: its index, its length and the
/// length of plane zero, which it should have had.
#[derive(Clone, Copy, PartialEq, Eq, Structural, Debug)]
pub struct PlaneMismatch {
    /// The channel of the plane.
    pub index: usize,
    /// The length of the plane.
    pub length: usize,
    /// The length of plane zero.
    pub expected: usize,
}

/// Read-only planar audio: `CHANNELS` planes of one common length.
pub struct PlanarBuf<'a, S: Sample, const CHANNELS: usize> {
    frames: usize,
    planes: [&'a [S]; CHANNELS],
}

impl<'a, S: Sample, const CHANNELS: usize> PlanarBuf<'a, S, CHANNELS> {
    #[verifier::type_invariant]
    spec fn well_formed(self) -> bool {
        &&& uniform(plane_lengths(self.planes))
        &&& self.frames == common_length(plane_lengths(self.planes))
    }

    /// The planes of this buffer, channel by channel.
    pub closed spec fn spec_planes(self) -> [&'a [S]; CHANNELS] {
        self.planes
    }

    /// The number of frames in each plane.
    pub closed spec fn spec_frames(self) -> nat {
        self.frames as nat
    }

    /// The buffer over the given planes, which must all have one length.
    pub fn new(planes: [&'a [S]; CHANNELS]) -> (buffer: Self)
        requires
            uniform(plane_lengths(planes)),
        ensures
            buffer.spec_planes() == planes,
            buffer.spec_frames() == common_length(plane_lengths(planes)),
    {
        let frames: usize = if CHANNELS == 0 {
            0
        } else {
            planes[0].len()
        };
        PlanarBuf { frames, planes }
    }

    /// The buffer over the given planes if they all have one length, and
    /// otherwise the first plane that differs from plane zero.
    pub fn try_new(planes: [&'a [S]; CHANNELS]) -> (made: Result<Self, PlaneMismatch>)
        ensures
            made is Ok <==> uniform(plane_lengths(planes)),
            made matches Ok(buffer) ==> buffer.spec_planes() == planes && buffer.spec_frames()
                == common_length(plane_lengths(planes)),
            made matches Err(mismatch) ==> first_mismatch(plane_lengths(planes), mismatch),
    {
        if CHANNELS == 0 {
            return Ok(Self::new(planes));
        }
        let expected = planes[0].len();
        let mut index: usize = 1;
        while index < CHANNELS
            invariant
                1 <= index <= CHANNELS,
                expected == plane_lengths(planes)[0],
                forall|channel: int|
                    0 <= channel < index ==> #[trigger] plane_lengths(planes)[channel] == expected,
            decreases CHANNELS - index,
        {
            let length = planes[index].len();
            if length != expected {
                assert(plane_lengths(planes)[index as int] != plane_lengths(planes)[0]);
                return Err(PlaneMismatch { index, length, expected });
            }
            index += 1;
        }
        Ok(Self::new(planes))
    }

    /// The number of frames in each plane.
    pub fn frames(&self) -> (frames: usize)
        ensures
            frames == self.spec_frames(),
            forall|channel: int|
                0 <= channel < CHANNELS ==> #[trigger] plane_lengths(self.spec_planes())[channel]
                    == frames,
    {
        proof {
            use_type_invariant(self);
        }
        self.frames
    }

    /// The plane of one channel.
    pub fn plane(&self, channel: usize) -> (plane: &'a [S])
        requires
            channel < CHANNELS,
        ensures
            plane == self.spec_planes()@[channel as int],
            plane@.len() == self.spec_frames(),
    {
        proof {
            use_type_invariant(self);
            assert(plane_lengths(self.planes)[channel as int] == self.frames);
        }
        self.planes[channel]
    }
}

/// Writable planar audio: `CHANNELS` planes of one common length.
pub struct PlanarMut<'a, S: Sample, const CHANNELS: usize> {
    frames: usize,
    planes: [&'a mut [S]; CHANNELS],
}

impl<'a, S: Sample, const CHANNELS: usize> PlanarMut<'a, S, CHANNELS> {
    #[verifier::type_invariant]
    spec fn well_formed(self) -> bool {
        &&& uniform(plane_lengths_mut(self.planes))
        &&& self.frames == common_length(plane_lengths_mut(self.planes))
    }

    /// The planes of this buffer, channel by channel.
    pub closed spec fn spec_planes(self) -> [&'a mut [S]; CHANNELS] {
        self.planes
    }

    /// The number of frames in each plane.
    pub closed spec fn spec_frames(self) -> nat {
        self.frames as nat
    }

    /// The buffer over the given planes, which must all have one length.
    pub fn new(planes: [&'a mut [S]; CHANNELS]) -> (buffer: Self)
        requires
            uniform(plane_lengths_mut(planes)),
        ensures
            buffer.spec_planes() == planes,
            buffer.spec_frames() == common_length(plane_lengths_mut(planes)),
    {
        let frames: usize = if CHANNELS == 0 {
            0
        } else {
            planes[0].len()
        };
        PlanarMut { frames, planes }
    }

    /// The buffer over the given planes if they all have one length, and
    /// otherwise the first plane that differs from plane zero.
    pub fn try_new(planes: [&'a mut [S]; CHANNELS]) -> (made: Result<Self, PlaneMismatch>)
        ensures
            made is Ok <==> uniform(plane_lengths_mut(planes)),
            made matches Ok(buffer) ==> buffer.spec_planes() == planes && buffer.spec_frames()
                == common_length(plane_lengths_mut(planes)),
            made matches Err(mismatch) ==> first_mismatch(plane_lengths_mut(planes), mismatch),
    {
        if CHANNELS == 0 {
            return Ok(Self::new(planes));
        }
        let expected = planes[0].len();
        let mut index: usize = 1;
        while index < CHANNELS
            invariant
                1 <= index <= CHANNELS,
                expected == plane_lengths_mut(planes)[0],
                forall|channel: int|
                    0 <= channel < index ==> #[trigger] plane_lengths_mut(planes)[channel]
                        == expected,
            decreases CHANNELS - index,
        {
            let length = planes[index].len();
            if length != expected {
                assert(plane_lengths_mut(planes)[index as int] != plane_lengths_mut(planes)[0]);
                return Err(PlaneMismatch { index, length, expected });
            }
            index += 1;
        }
        Ok(Self::new(planes))
    }

    /// The number of frames in each plane.
    pub fn frames(&self) -> (frames: usize)
        ensures
            frames == self.spec_frames(),
            forall|channel: int|
                0 <= channel < CHANNELS ==> #[trigger] plane_lengths_mut(
                    self.spec_planes(),
                )[channel] == frames,
    {
        proof {
            use_type_invariant(self);
        }
        self.frames
    }

    /// Gives the planes back.
    pub fn into_planes(self) -> (planes: [&'a mut [S]; CHANNELS])
        ensures
            planes == self.spec_planes(),
            uniform(plane_lengths_mut(planes)),
            common_length(plane_lengths_mut(planes)) == self.spec_frames(),
    {
        proof {
            use_type_invariant(&self);
        }
        self.planes
    }
}

} // verus!
