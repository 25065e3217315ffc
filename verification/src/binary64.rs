//! IEEE 754 binary64 values held by their bit pattern.
//!
//! The service carries coordinates, scales and angles as double precision
//! numbers. The library holds each one as its 64-bit pattern, so that the
//! decisions it takes on them (is a hint positive, is a range ordered, is a
//! value finite) are integer logic that Verus can check.
use vstd::prelude::*;

verus! {

/// Number of bits of the fraction field.
pub const FRACTION_BITS: u64 = 52;

/// A binary64 value, stored as its bit pattern.
#[derive(Clone, Copy, Debug, PartialEq, Eq, Structural)]
pub struct Binary64 {
    pub bits: u64,
}

/// The sign bit.
pub open spec fn sign_of(bits: u64) -> bool {
    bits >= 0x8000_0000_0000_0000
}

/// Everything but the sign bit: exponent and fraction together.
pub open spec fn magnitude_of(bits: u64) -> int {
    bits as int % 0x8000_0000_0000_0000
}

/// The biased exponent field.
pub open spec fn exponent_of(bits: u64) -> int {
    magnitude_of(bits) / 0x10_0000_0000_0000
}

/// The fraction field.
pub open spec fn fraction_of(bits: u64) -> int {
    bits as int % 0x10_0000_0000_0000
}

/// A NaN: all exponent bits set and a non-zero fraction.
pub open spec fn is_nan_bits(bits: u64) -> bool {
    exponent_of(bits) == 0x7ff && fraction_of(bits) != 0
}

/// A finite value: not all exponent bits set.
pub open spec fn is_finite_bits(bits: u64) -> bool {
    exponent_of(bits) != 0x7ff
}

/// An integer that orders the non-NaN values as the reals they stand for:
/// the magnitude field, negated for negative values. Both zeros map to 0.
pub open spec fn order_key(bits: u64) -> int {
    if sign_of(bits) {
        -magnitude_of(bits)
    } else {
        magnitude_of(bits)
    }
}

/// IEEE `a < b`: false as soon as either side is NaN.
pub open spec fn ieee_lt(a: u64, b: u64) -> bool {
    !is_nan_bits(a) && !is_nan_bits(b) && order_key(a) < order_key(b)
}

/// IEEE `a <= b`: false as soon as either side is NaN.
pub open spec fn ieee_le(a: u64, b: u64) -> bool {
    !is_nan_bits(a) && !is_nan_bits(b) && order_key(a) <= order_key(b)
}

impl Binary64 {
    /// The value whose bit pattern is `bits`.
    pub fn from_bits(bits: u64) -> (v: Binary64)
        ensures
            v.bits == bits,
    {
        Binary64 { bits }
    }

    /// The bit pattern of the value.
    pub fn to_bits(&self) -> (b: u64)
        ensures
            b == self.bits,
    {
        self.bits
    }

    /// Positive zero.
    pub fn zero() -> (v: Binary64)
        ensures
            v.bits == 0,
    {
        Binary64 { bits: 0 }
    }

    fn magnitude(&self) -> (m: u64)
        ensures
            m as int == magnitude_of(self.bits),
            m < 0x8000_0000_0000_0000,
    {
        self.bits % 0x8000_0000_0000_0000
    }

    fn key(&self) -> (k: i64)
        ensures
            k as int == order_key(self.bits),
    {
        let m = self.magnitude();
        if self.bits >= 0x8000_0000_0000_0000 {
            -(m as i64)
        } else {
            m as i64
        }
    }

    /// Whether the value is a NaN.
    pub fn is_nan(&self) -> (r: bool)
        ensures
            r == is_nan_bits(self.bits),
    {
        let m = self.magnitude();
        m / 0x10_0000_0000_0000 == 0x7ff && self.bits % 0x10_0000_0000_0000 != 0
    }

    /// Whether the value is neither infinite nor NaN.
    pub fn is_finite(&self) -> (r: bool)
        ensures
            r == is_finite_bits(self.bits),
    {
        let m = self.magnitude();
        m / 0x10_0000_0000_0000 != 0x7ff
    }

    /// IEEE `self > other`.
    pub fn gt(&self, other: &Binary64) -> (r: bool)
        ensures
            r == ieee_lt(other.bits, self.bits),
    {
        !self.is_nan() && !other.is_nan() && other.key() < self.key()
    }

    /// IEEE `self >= other`.
    pub fn ge(&self, other: &Binary64) -> (r: bool)
        ensures
            r == ieee_le(other.bits, self.bits),
    {
        !self.is_nan() && !other.is_nan() && other.key() <= self.key()
    }

    /// IEEE `self > 0`.
    pub fn is_positive(&self) -> (r: bool)
        ensures
            r == ieee_lt(0, self.bits),
    {
        self.gt(&Binary64::zero())
    }
}

/// Comparing with either zero gives the same answer: the two zeros are equal.
pub proof fn lemma_zeros_compare_equal(x: u64)
    ensures
        ieee_lt(0, x) == ieee_lt(0x8000_0000_0000_0000, x),
        ieee_le(x, 0) == ieee_le(x, 0x8000_0000_0000_0000),
{
}

/// IEEE `<=` is transitive on the values it relates.
pub proof fn lemma_le_transitive(a: u64, b: u64, c: u64)
    requires
        ieee_le(a, b),
        ieee_le(b, c),
    ensures
        ieee_le(a, c),
{
}

/// No value is ordered with a NaN, not even itself.
pub proof fn lemma_nan_unordered(a: u64, n: u64)
    requires
        is_nan_bits(n),
    ensures
        !ieee_le(a, n),
        !ieee_le(n, a),
        !ieee_lt(a, n),
        !ieee_lt(n, a),
{
}

} // verus!
