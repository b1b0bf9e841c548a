//! Single-precision numbers carried by their bit pattern.
//!
//! Coordinates, sizes and factors travel through this crate untouched; the
//! only things ever asked of one are its sign and whether it is a number at
//! all, and both can be read off the IEEE 754 binary32 encoding.

use vstd::prelude::*;

verus! {

/// Bit pattern of `1.0`.
pub const ONE_BITS: u32 = 0x3f80_0000;

/// Bit pattern of positive infinity; every larger magnitude is a NaN.
pub const INFINITY_BITS: u32 = 0x7f80_0000;

/// Mask that clears the sign bit.
pub const MAGNITUDE_MASK: u32 = 0x7fff_ffff;

/// A binary32 value, held as the 32 bits of its encoding.
#[derive(Clone, Copy, Debug, PartialEq, Eq, Structural)]
pub struct Scalar {
    pub bits: u32,
}

impl Scalar {
    /// The encoding with the sign bit cleared.
    pub open spec fn magnitude(&self) -> u32 {
        self.bits & MAGNITUDE_MASK
    }

    /// The sign bit is set.
    pub open spec fn sign_bit(&self) -> bool {
        self.bits != self.magnitude()
    }

    /// Not a number: exponent all ones and a non-zero fraction.
    pub open spec fn spec_is_nan(&self) -> bool {
        self.magnitude() > INFINITY_BITS
    }

    /// Strictly below zero: sign set, not a zero, not a NaN.
    /// Negative infinity counts; negative zero does not.
    pub open spec fn spec_is_negative(&self) -> bool {
        self.sign_bit() && 0 < self.magnitude() <= INFINITY_BITS
    }

    pub fn from_bits(bits: u32) -> (r: Scalar)
        ensures
            r.bits == bits,
    {
        Scalar { bits }
    }

    pub fn to_bits(&self) -> (r: u32)
        ensures
            r == self.bits,
    {
        self.bits
    }

    /// The value `0.0`.
    pub fn zero() -> (r: Scalar)
        ensures
            r.bits == 0,
            !r.spec_is_negative(),
            !r.spec_is_nan(),
    {
        assert(0u32 & MAGNITUDE_MASK == 0) by (bit_vector);
        Scalar { bits: 0 }
    }

    /// The value `1.0`.
    pub fn one() -> (r: Scalar)
        ensures
            r.bits == ONE_BITS,
            !r.spec_is_negative(),
            !r.spec_is_nan(),
    {
        assert(ONE_BITS & MAGNITUDE_MASK == ONE_BITS) by (bit_vector);
        Scalar { bits: ONE_BITS }
    }

    #[verifier::when_used_as_spec(spec_is_nan)]
    pub fn is_nan(&self) -> (r: bool)
        ensures
            r == self.spec_is_nan(),
    {
        (self.bits & MAGNITUDE_MASK) > INFINITY_BITS
    }

    #[verifier::when_used_as_spec(spec_is_negative)]
    pub fn is_negative(&self) -> (r: bool)
        ensures
            r == self.spec_is_negative(),
    {
        let magnitude: u32 = self.bits & MAGNITUDE_MASK;
        self.bits != magnitude && 0 < magnitude && magnitude <= INFINITY_BITS
    }
}

} // verus!
