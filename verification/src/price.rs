//! Prices and the order between them.

use vstd::prelude::*;

verus! {

/// The bit that carries the sign of a binary64 number.
pub const SIGN_BIT: u64 = 0x8000_0000_0000_0000;

/// The magnitude of positive infinity; every greater magnitude is a NaN.
pub const INFINITY_MAGNITUDE: u64 = 0x7FF0_0000_0000_0000;

/// A price: an IEEE-754 binary64 number, held by its 64-bit pattern.
///
/// The library never computes with a price. It only compares prices, and the
/// comparisons below are those of IEEE-754: a NaN is unordered and equal to
/// nothing, the two zeros are equal, and every other pair is ordered by value.
#[derive(Clone, Copy, Debug)]
pub struct Price {
    pub bits: u64,
}

impl Price {
    /// The pattern without its sign bit.
    pub open spec fn magnitude(self) -> int {
        self.bits as int % SIGN_BIT as int
    }

    /// Whether the sign bit is set.
    pub open spec fn sign(self) -> bool {
        self.bits >= SIGN_BIT
    }

    /// Whether the pattern is a NaN.
    pub open spec fn spec_is_nan(self) -> bool {
        self.magnitude() > INFINITY_MAGNITUDE
    }

    /// The place of a number among all numbers: `a` is below `b` exactly when
    /// `a.rank() < b.rank()`, for numbers that are no NaN. Both zeros have
    /// rank 0.
    pub open spec fn spec_rank(self) -> int {
        if self.sign() {
            -self.magnitude()
        } else {
            self.magnitude()
        }
    }

    /// Numeric equality: neither is a NaN and both have the same rank.
    pub open spec fn spec_same(self, other: Price) -> bool {
        !self.spec_is_nan() && !other.spec_is_nan() && self.spec_rank() == other.spec_rank()
    }

    /// Numeric `<`.
    pub open spec fn spec_lt(self, other: Price) -> bool {
        !self.spec_is_nan() && !other.spec_is_nan() && self.spec_rank() < other.spec_rank()
    }

    /// Numeric `<=`.
    pub open spec fn spec_le(self, other: Price) -> bool {
        !self.spec_is_nan() && !other.spec_is_nan() && self.spec_rank() <= other.spec_rank()
    }

    /// Numeric `>`.
    pub open spec fn spec_gt(self, other: Price) -> bool {
        other.spec_lt(self)
    }

    /// Numeric `>=`.
    pub open spec fn spec_ge(self, other: Price) -> bool {
        other.spec_le(self)
    }

    /// The price zero, which a ticker holds until its first tick.
    pub open spec fn spec_zero() -> Price {
        Price { bits: 0 }
    }

    /// The price with the given bit pattern.
    pub fn from_bits(bits: u64) -> (p: Price)
        ensures
            p.bits == bits,
    {
        Price { bits }
    }

    /// The bit pattern of the price.
    pub fn to_bits(self) -> (bits: u64)
        ensures
            bits == self.bits,
    {
        self.bits
    }

    /// The price zero.
    #[verifier::when_used_as_spec(spec_zero)]
    pub fn zero() -> (p: Price)
        ensures
            p == Price::spec_zero(),
    {
        Price { bits: 0 }
    }

    /// Whether the price is a NaN.
    #[verifier::when_used_as_spec(spec_is_nan)]
    pub fn is_nan(self) -> (r: bool)
        ensures
            r == self.spec_is_nan(),
    {
        self.bits % SIGN_BIT > INFINITY_MAGNITUDE
    }

    /// The rank as a machine integer.
    pub fn rank(self) -> (r: i64)
        ensures
            r == self.spec_rank(),
    {
        let magnitude: u64 = self.bits % SIGN_BIT;
        if self.bits >= SIGN_BIT {
            -(magnitude as i64)
        } else {
            magnitude as i64
        }
    }

    /// Whether the two prices are equal in value.
    #[verifier::when_used_as_spec(spec_same)]
    pub fn same(self, other: Price) -> (r: bool)
        ensures
            r == self.spec_same(other),
    {
        !self.is_nan() && !other.is_nan() && self.rank() == other.rank()
    }

    /// Whether the price is below `other`.
    #[verifier::when_used_as_spec(spec_lt)]
    pub fn lt(self, other: Price) -> (r: bool)
        ensures
            r == self.spec_lt(other),
    {
        !self.is_nan() && !other.is_nan() && self.rank() < other.rank()
    }

    /// Whether the price is below `other` or equal to it.
    #[verifier::when_used_as_spec(spec_le)]
    pub fn le(self, other: Price) -> (r: bool)
        ensures
            r == self.spec_le(other),
    {
        !self.is_nan() && !other.is_nan() && self.rank() <= other.rank()
    }

    /// Whether the price is above `other`.
    #[verifier::when_used_as_spec(spec_gt)]
    pub fn gt(self, other: Price) -> (r: bool)
        ensures
            r == self.spec_gt(other),
    {
        other.lt(self)
    }

    /// Whether the price is above `other` or equal to it.
    #[verifier::when_used_as_spec(spec_ge)]
    pub fn ge(self, other: Price) -> (r: bool)
        ensures
            r == self.spec_ge(other),
    {
        other.le(self)
    }
}

} // verus!
