//! Single-precision numbers as their bit patterns.
//!
//! A coordinate reaches this crate as the 32 bits of its IEEE 754 binary32
//! encoding. Of such a number the crate only ever asks how it compares with
//! another, and that is decided on the bits alone: sign and magnitude, with
//! the two zeros equal and a NaN comparable to nothing.
use vstd::prelude::*;

verus! {

/// The bits below the sign bit: exponent and fraction.
pub open spec fn magnitude(bits: u32) -> u32 {
    bits & 0x7fff_ffffu32
}

/// The sign bit is set.
pub open spec fn sign_set(bits: u32) -> bool {
    bits & 0x8000_0000u32 != 0
}

/// A binary32 number, held as its encoding.
#[derive(Clone, Copy, Debug, PartialEq, Eq, Structural)]
pub struct Scalar {
    pub bits: u32,
}

impl Scalar {
    /// The encoding is that of a NaN: all exponent bits set, fraction not zero.
    pub open spec fn nan(self) -> bool {
        magnitude(self.bits) > 0x7f80_0000u32
    }

    /// Where the number stands among those that are no NaN: its magnitude,
    /// counted down from zero where the sign is set. Both zeros stand at 0.
    pub open spec fn rank(self) -> int {
        if sign_set(self.bits) {
            -(magnitude(self.bits) as int)
        } else {
            magnitude(self.bits) as int
        }
    }

    /// `self < other` as IEEE 754 has it.
    pub open spec fn below(self, other: Scalar) -> bool {
        !self.nan() && !other.nan() && self.rank() < other.rank()
    }

    /// `self <= other` as IEEE 754 has it.
    pub open spec fn at_most(self, other: Scalar) -> bool {
        !self.nan() && !other.nan() && self.rank() <= other.rank()
    }

    /// The number with the opposite sign.
    pub open spec fn neg_spec(self) -> Scalar {
        Scalar { bits: self.bits ^ 0x8000_0000u32 }
    }

    /// The number with the given encoding.
    pub fn from_bits(bits: u32) -> (s: Scalar)
        ensures
            s.bits == bits,
    {
        Scalar { bits }
    }

    /// The encoding.
    pub fn to_bits(self) -> (bits: u32)
        ensures
            bits == self.bits,
    {
        self.bits
    }

    /// Positive zero.
    pub fn zero() -> (s: Scalar)
        ensures
            s.bits == 0,
            !s.nan(),
            s.rank() == 0,
    {
        assert(0u32 & 0x7fff_ffffu32 == 0) by (bit_vector);
        assert(0u32 & 0x8000_0000u32 == 0) by (bit_vector);
        Scalar { bits: 0 }
    }

    /// Whether the number is a NaN.
    pub fn is_nan(self) -> (r: bool)
        ensures
            r == self.nan(),
    {
        (self.bits & 0x7fff_ffffu32) > 0x7f80_0000u32
    }

    fn rank_value(self) -> (r: i64)
        ensures
            r == self.rank(),
    {
        let m: u32 = self.bits & 0x7fff_ffffu32;
        if self.bits & 0x8000_0000u32 != 0 {
            -(m as i64)
        } else {
            m as i64
        }
    }

    /// `self < other`.
    pub fn lt(self, other: Scalar) -> (r: bool)
        ensures
            r == self.below(other),
    {
        !self.is_nan() && !other.is_nan() && self.rank_value() < other.rank_value()
    }

    /// `self <= other`.
    pub fn le(self, other: Scalar) -> (r: bool)
        ensures
            r == self.at_most(other),
    {
        !self.is_nan() && !other.is_nan() && self.rank_value() <= other.rank_value()
    }

    /// `self > other`.
    pub fn gt(self, other: Scalar) -> (r: bool)
        ensures
            r == other.below(self),
    {
        other.lt(self)
    }

    /// `self >= other`.
    pub fn ge(self, other: Scalar) -> (r: bool)
        ensures
            r == other.at_most(self),
    {
        other.le(self)
    }

    /// The number with the opposite sign. A NaN stays a NaN.
    pub fn neg(self) -> (r: Scalar)
        ensures
            r == self.neg_spec(),
            r.nan() == self.nan(),
            r.rank() == -self.rank(),
    {
        let b: u32 = self.bits;
        assert((b ^ 0x8000_0000u32) & 0x7fff_ffffu32 == b & 0x7fff_ffffu32) by (bit_vector);
        assert(((b ^ 0x8000_0000u32) & 0x8000_0000u32 != 0) == (b & 0x8000_0000u32 == 0))
            by (bit_vector);
        Scalar { bits: b ^ 0x8000_0000u32 }
    }
}

} // verus!
