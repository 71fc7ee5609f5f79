//! Binary64 quantities, carried by their bit patterns.

use vstd::prelude::*;

verus! {

/// An IEEE 754 binary64 quantity, held as its 64 bits.
///
/// The core moves such quantities between a request, the host and a response, and tells zero
/// from the rest. It does no arithmetic on them.
#[derive(Clone, Copy, Debug, PartialEq, Eq, Structural)]
pub struct Scalar {
    pub bits: u64,
}

/// The bit pattern of negative zero: the sign bit alone.
pub const NEGATIVE_ZERO_BITS: u64 = 0x8000_0000_0000_0000;

/// The bit pattern of `1.0`.
pub const ONE_BITS: u64 = 0x3FF0_0000_0000_0000;

/// The bit pattern of positive infinity. The patterns above it, up to the sign bit, are
/// those of the values that are no numbers.
pub const INFINITY_BITS: u64 = 0x7FF0_0000_0000_0000;

/// The bit pattern of `0.05`.
pub const TWENTIETH_BITS: u64 = 0x3FA9_9999_9999_999A;

/// The bit pattern of `0.1`.
pub const TENTH_BITS: u64 = 0x3FB9_9999_9999_999A;

/// The bit pattern of `0.15`.
pub const THREE_TWENTIETHS_BITS: u64 = 0x3FC3_3333_3333_3333;

impl Scalar {
    /// Whether the quantity compares equal to zero: positive or negative zero.
    pub open spec fn is_zero(self) -> bool {
        self.bits == 0 || self.bits == NEGATIVE_ZERO_BITS
    }

    /// Whether the quantity is greater than zero: its sign bit is clear, and it is neither
    /// zero nor a value that is no number.
    pub open spec fn is_positive(self) -> bool {
        0 < self.bits <= INFINITY_BITS
    }

    /// The quantity with the given bits.
    pub fn from_bits(bits: u64) -> (r: Scalar)
        ensures
            r.bits == bits,
    {
        Scalar { bits }
    }

    /// Positive zero.
    pub fn zero() -> (r: Scalar)
        ensures
            r.bits == 0,
            r.is_zero(),
    {
        Scalar { bits: 0 }
    }

    /// One.
    pub fn one() -> (r: Scalar)
        ensures
            r.bits == ONE_BITS,
            r.is_positive(),
    {
        Scalar { bits: ONE_BITS }
    }

    /// Whether the quantity is greater than zero.
    pub fn exceeds_zero(&self) -> (r: bool)
        ensures
            r == self.is_positive(),
    {
        0 < self.bits && self.bits <= INFINITY_BITS
    }

    /// Whether the quantity compares equal to zero.
    pub fn vanishes(&self) -> (r: bool)
        ensures
            r == self.is_zero(),
    {
        self.bits == 0 || self.bits == NEGATIVE_ZERO_BITS
    }
}

} // verus!
