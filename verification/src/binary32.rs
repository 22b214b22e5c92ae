//! Single-precision numbers held as their IEEE-754 bit patterns.
//!
//! A [`Real`] is the 32-bit encoding of a binary32 number: one sign bit, eight
//! exponent bits, twenty-three fraction bits. Everything in this module is
//! exact on that encoding. Arithmetic that rounds is not here: it is supplied
//! by the caller (see [`crate::arithmetic`]).
use vstd::prelude::*;

verus! {

/// Mask of the sign bit.
pub const SIGN_MASK: u32 = 0x8000_0000;

/// Mask of the exponent and fraction bits.
pub const MAGNITUDE_MASK: u32 = 0x7fff_ffff;

/// Magnitude bits of positive infinity: all exponent bits set, fraction zero.
pub const INFINITY_BITS: u32 = 0x7f80_0000;

/// Bits of the number two: positive sign, biased exponent 128, fraction zero.
pub const TWO_BITS: u32 = 0x4000_0000;

/// A binary32 number, given by its bits.
#[derive(Clone, Copy, Debug)]
pub struct Real {
    pub bits: u32,
}

impl Real {
    /// The exponent and fraction bits, without the sign.
    pub open spec fn magnitude(self) -> u32 {
        self.bits & MAGNITUDE_MASK
    }

    /// The sign bit is set.
    pub open spec fn is_negative_signed(self) -> bool {
        self.bits & SIGN_MASK != 0
    }

    /// The number is positive or negative zero.
    pub open spec fn is_zero_spec(self) -> bool {
        self.magnitude() == 0
    }

    /// The encoding is not a number.
    pub open spec fn is_nan(self) -> bool {
        self.magnitude() > INFINITY_BITS
    }

    /// The number is neither an infinity nor not-a-number.
    pub open spec fn is_finite(self) -> bool {
        self.magnitude() < INFINITY_BITS
    }

    /// The number is greater than zero (positive infinity included).
    pub open spec fn is_positive(self) -> bool {
        &&& !self.is_negative_signed()
        &&& !self.is_zero_spec()
        &&& !self.is_nan()
    }

    /// Numeric equality of two encodings: neither is not-a-number, and they
    /// have the same bits or are both zeros (of either sign).
    pub open spec fn same_number(self, other: Real) -> bool {
        &&& !self.is_nan()
        &&& !other.is_nan()
        &&& (self.bits == other.bits || (self.is_zero_spec() && other.is_zero_spec()))
    }

    /// The encoding with the sign bit flipped.
    pub open spec fn negated(self) -> Real {
        Real { bits: self.bits ^ SIGN_MASK }
    }

    /// Positive zero.
    pub open spec fn zero_spec() -> Real {
        Real { bits: 0 }
    }

    /// The number two.
    pub open spec fn two_spec() -> Real {
        Real { bits: TWO_BITS }
    }

    /// The number with the given encoding.
    pub fn from_bits(bits: u32) -> (r: Real)
        ensures
            r.bits == bits,
    {
        Real { bits }
    }

    /// The encoding of the number.
    pub fn to_bits(self) -> (bits: u32)
        ensures
            bits == self.bits,
    {
        self.bits
    }

    /// Positive zero.
    #[verifier::when_used_as_spec(zero_spec)]
    pub fn zero() -> (r: Real)
        ensures
            r == Real::zero_spec(),
            r.is_zero_spec(),
            !r.is_negative_signed(),
    {
        assert(0u32 & 0x7fff_ffff == 0) by (bit_vector);
        assert(0u32 & 0x8000_0000 == 0) by (bit_vector);
        Real { bits: 0 }
    }

    /// The number two.
    #[verifier::when_used_as_spec(two_spec)]
    pub fn two() -> (r: Real)
        ensures
            r == Real::two_spec(),
            r.is_finite(),
            !r.is_zero_spec(),
            !r.is_negative_signed(),
    {
        assert(0x4000_0000u32 & 0x7fff_ffff == 0x4000_0000) by (bit_vector);
        assert(0x4000_0000u32 & 0x8000_0000 == 0) by (bit_vector);
        Real { bits: TWO_BITS }
    }

    /// Whether the number compares equal to zero. Both zeros do; nothing else
    /// does, not-a-number included.
    #[verifier::when_used_as_spec(is_zero_spec)]
    pub fn is_zero(self) -> (r: bool)
        ensures
            r == self.is_zero_spec(),
    {
        self.bits & MAGNITUDE_MASK == 0
    }

    /// The number with the opposite sign. Only the sign bit changes, so this
    /// is exact for every encoding.
    pub fn neg(self) -> (r: Real)
        ensures
            r == self.negated(),
            r.magnitude() == self.magnitude(),
            r.is_negative_signed() == !self.is_negative_signed(),
    {
        proof {
            lemma_negated(self);
        }
        Real { bits: self.bits ^ SIGN_MASK }
    }
}

/// Flipping the sign keeps the magnitude, inverts the sign, and undoes itself.
pub proof fn lemma_negated(a: Real)
    ensures
        a.negated().magnitude() == a.magnitude(),
        a.negated().is_negative_signed() == !a.is_negative_signed(),
        a.negated().negated() == a,
        a.negated().is_zero_spec() == a.is_zero_spec(),
        a.negated().is_nan() == a.is_nan(),
        a.negated().is_finite() == a.is_finite(),
{
    let b = a.bits;
    assert((b ^ 0x8000_0000) & 0x7fff_ffff == b & 0x7fff_ffff) by (bit_vector);
    assert(((b ^ 0x8000_0000) & 0x8000_0000 != 0) == !(b & 0x8000_0000 != 0)) by (bit_vector);
    assert((b ^ 0x8000_0000) ^ 0x8000_0000 == b) by (bit_vector);
}

/// Two is a finite number other than zero.
pub proof fn lemma_two_is_regular()
    ensures
        Real::two_spec().is_finite(),
        !Real::two_spec().is_nan(),
        !Real::two_spec().is_zero_spec(),
{
    assert(0x4000_0000u32 & 0x7fff_ffff == 0x4000_0000) by (bit_vector);
}

} // verus!
