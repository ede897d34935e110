//! Binary floating-point numbers held by their bit patterns.
//!
//! Sample rates, filter settings and floating-point audio samples only pass
//! through this crate on their way to the conversion engine; nothing here does
//! arithmetic on them. They are therefore kept as the bit patterns of their
//! IEEE 754 encodings, which makes every value a plain integer that can be
//! compared and stored exactly.

use vstd::prelude::*;

verus! {

/// An IEEE 754 binary32 number, held by its bit pattern.
///
/// Equality is equality of bit patterns: the two zeros differ, and a NaN is
/// equal to itself.
#[derive(Clone, Copy, PartialEq, Eq, Structural, Debug)]
pub struct Binary32 {
    pub bits: u32,
}

/// An IEEE 754 binary64 number, held by its bit pattern.
///
/// Equality is equality of bit patterns: the two zeros differ, and a NaN is
/// equal to itself.
#[derive(Clone, Copy, PartialEq, Eq, Structural, Debug)]
pub struct Binary64 {
    pub bits: u64,
}

/// The bit pattern of the binary64 number one.
pub const BINARY64_ONE_BITS: u64 = 0x3FF0_0000_0000_0000;

impl Binary32 {
    /// The number with the given bit pattern.
    pub fn from_bits(bits: u32) -> (number: Self)
        ensures
            number.bits == bits,
    {
        Binary32 { bits }
    }

    /// The bit pattern of this number.
    pub fn to_bits(self) -> (bits: u32)
        ensures
            bits == self.bits,
    {
        self.bits
    }
}

impl Binary64 {
    /// The number with the given bit pattern.
    pub fn from_bits(bits: u64) -> (number: Self)
        ensures
            number.bits == bits,
    {
        Binary64 { bits }
    }

    /// The bit pattern of this number.
    pub fn to_bits(self) -> (bits: u64)
        ensures
            bits == self.bits,
    {
        self.bits
    }

    /// The number one: sign 0, biased exponent 1023, fraction 0.
    pub fn one() -> (number: Self)
        ensures
            number.bits == BINARY64_ONE_BITS,
    {
        Binary64 { bits: BINARY64_ONE_BITS }
    }
}

} // verus!
