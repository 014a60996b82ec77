//! IEEE 754 doubles carried by their bit pattern.

use vstd::prelude::*;

verus! {

/// The bit pattern of positive infinity; a larger magnitude is not a number.
pub const INFINITY_BITS: u64 = 0x7ff0_0000_0000_0000;

/// The weight of the sign bit.
pub const SIGN_WEIGHT: u64 = 0x8000_0000_0000_0000;

/// A double-precision number, held as the 64 bits of its IEEE 754 encoding.
///
/// The library decides on such numbers (it compares them, takes their magnitude)
/// but never computes a new one.
#[derive(Clone, Copy, Debug, PartialEq, Eq, Structural)]
pub struct Double {
    pub bits: u64,
}

impl Double {
    /// The encoding without its sign bit.
    pub open spec fn magnitude_spec(self) -> int {
        if self.bits < SIGN_WEIGHT { self.bits as int } else { self.bits - SIGN_WEIGHT }
    }

    /// Whether the encoding is not a number.
    pub open spec fn nan(self) -> bool {
        self.magnitude_spec() > INFINITY_BITS
    }

    /// Whether this is a number, and not an infinite one.
    pub open spec fn finite(self) -> bool {
        self.magnitude_spec() < INFINITY_BITS
    }

    /// An integer that orders the numbers: the magnitude, with the sign of the number.
    /// Both zeros have the rank zero.
    pub open spec fn rank(self) -> int {
        if self.bits < SIGN_WEIGHT { self.bits as int } else { -(self.bits - SIGN_WEIGHT) }
    }

    /// `self < other` as IEEE 754 defines it: false where either is not a number.
    pub open spec fn below(self, other: Double) -> bool {
        !self.nan() && !other.nan() && self.rank() < other.rank()
    }

    /// `self <= other` as IEEE 754 defines it: false where either is not a number.
    pub open spec fn at_most(self, other: Double) -> bool {
        !self.nan() && !other.nan() && self.rank() <= other.rank()
    }

    /// Positive zero.
    pub open spec fn zero_spec() -> Double {
        Double { bits: 0 }
    }

    /// The number without its sign.
    pub open spec fn magnitude(self) -> Double {
        Double { bits: self.magnitude_spec() as u64 }
    }

    /// The larger of two numbers; a number wins over what is not one. The second where
    /// they are equal.
    pub open spec fn larger(self, other: Double) -> Double {
        if self.nan() || self.at_most(other) { other } else { self }
    }

    /// The smaller of two numbers; a number wins over what is not one. The second where
    /// they are equal.
    pub open spec fn smaller(self, other: Double) -> Double {
        if self.nan() || other.at_most(self) { other } else { self }
    }

    /// The number, moved to the nearer end where it is outside of `lo` and `hi`.
    pub open spec fn clamped(self, lo: Double, hi: Double) -> Double {
        if self.below(lo) {
            lo
        } else if hi.below(self) {
            hi
        } else {
            self
        }
    }

    /// One with the sign of the number; what is not a number stays so.
    pub open spec fn sign(self) -> Double {
        if self.nan() {
            self
        } else if self.bits < SIGN_WEIGHT {
            Double { bits: 0x3ff0_0000_0000_0000 }
        } else {
            Double { bits: 0xbff0_0000_0000_0000 }
        }
    }

    /// A double with the given encoding.
    pub fn from_bits(bits: u64) -> (r: Double)
        ensures
            r == (Double { bits }),
    {
        Double { bits }
    }

    /// Positive zero.
    pub fn zero() -> (r: Double)
        ensures
            r == Double::zero_spec(),
    {
        Double { bits: 0 }
    }

    /// The encoding without its sign bit.
    fn unsigned_bits(self) -> (r: u64)
        ensures
            r == self.magnitude_spec(),
    {
        if self.bits < SIGN_WEIGHT {
            self.bits
        } else {
            self.bits - SIGN_WEIGHT
        }
    }

    /// Whether this is not a number.
    pub fn is_nan(self) -> (r: bool)
        ensures
            r == self.nan(),
    {
        self.unsigned_bits() > INFINITY_BITS
    }

    /// Whether this is a number, and not an infinite one.
    pub fn is_finite(self) -> (r: bool)
        ensures
            r == self.finite(),
    {
        self.unsigned_bits() < INFINITY_BITS
    }

    /// `self < other`.
    pub fn lt(self, other: Double) -> (r: bool)
        ensures
            r == self.below(other),
    {
        if self.is_nan() || other.is_nan() {
            return false;
        }
        if self.bits < SIGN_WEIGHT {
            other.bits < SIGN_WEIGHT && self.bits < other.bits
        } else if other.bits < SIGN_WEIGHT {
            self.bits != SIGN_WEIGHT || other.bits != 0
        } else {
            other.bits < self.bits
        }
    }

    /// `self <= other`.
    pub fn le(self, other: Double) -> (r: bool)
        ensures
            r == self.at_most(other),
    {
        !self.is_nan() && !other.is_nan() && !other.lt(self)
    }

    /// The number without its sign.
    pub fn abs(self) -> (r: Double)
        ensures
            r == self.magnitude(),
    {
        Double { bits: self.unsigned_bits() }
    }

    /// The number, moved to the nearer end where it is outside of `lo` and `hi`.
    pub fn clamp(self, lo: Double, hi: Double) -> (r: Double)
        requires
            lo.at_most(hi),
        ensures
            r == self.clamped(lo, hi),
    {
        if self.lt(lo) {
            lo
        } else if hi.lt(self) {
            hi
        } else {
            self
        }
    }

    /// One with the sign of the number.
    pub fn signum(self) -> (r: Double)
        ensures
            r == self.sign(),
    {
        if self.is_nan() {
            self
        } else if self.bits < SIGN_WEIGHT {
            Double { bits: 0x3ff0_0000_0000_0000 }
        } else {
            Double { bits: 0xbff0_0000_0000_0000 }
        }
    }

    /// The larger of two numbers.
    pub fn max(self, other: Double) -> (r: Double)
        ensures
            r == self.larger(other),
    {
        if self.is_nan() || self.le(other) {
            other
        } else {
            self
        }
    }

    /// The smaller of two numbers.
    pub fn min(self, other: Double) -> (r: Double)
        ensures
            r == self.smaller(other),
    {
        if self.is_nan() || other.le(self) {
            other
        } else {
            self
        }
    }
}

/// Between two numbers exactly one of `<`, `>` and equality of rank holds, and the order is
/// transitive.
pub proof fn law_order_is_total(a: Double, b: Double, c: Double)
    requires
        !a.nan(),
        !b.nan(),
    ensures
        a.below(b) || b.below(a) || a.rank() == b.rank(),
        !(a.below(b) && b.below(a)),
        a.at_most(b) <==> !b.below(a),
        a.below(b) && b.below(c) ==> a.below(c),
        a.at_most(b) && b.at_most(c) ==> a.at_most(c),
{
}

/// The rank of a double is its magnitude with its sign, so that both zeros are equal; what has a
/// larger magnitude than infinity is no number.
pub proof fn law_rank_is_the_signed_magnitude(d: Double)
    ensures
        d.bits < 0x8000_0000_0000_0000 ==> d.rank() == d.bits,
        d.bits >= 0x8000_0000_0000_0000 ==> d.rank() == 0x8000_0000_0000_0000 - d.bits,
        d.nan() <==> d.rank() > 0x7ff0_0000_0000_0000 || d.rank() < -0x7ff0_0000_0000_0000,
        d.finite() <==> -0x7ff0_0000_0000_0000 < d.rank() < 0x7ff0_0000_0000_0000,
        d.magnitude().rank() == (if d.rank() >= 0 { d.rank() } else { -d.rank() }),
        !d.nan() && d.bits < 0x8000_0000_0000_0000 ==> d.sign().bits == 0x3ff0_0000_0000_0000,
        !d.nan() && d.bits >= 0x8000_0000_0000_0000 ==> d.sign().bits == 0xbff0_0000_0000_0000,
        d.nan() ==> d.sign() == d,
{
}

/// Comparing goes by rank, and nothing compares with what is no number.
pub proof fn law_comparing_goes_by_rank(a: Double, b: Double)
    ensures
        a.below(b) <==> !a.nan() && !b.nan() && a.rank() < b.rank(),
        a.at_most(b) <==> !a.nan() && !b.nan() && a.rank() <= b.rank(),
{
}

/// The larger and the smaller of two are each one of the two. Of two numbers neither is above the
/// larger or below the smaller, the second is taken of two that are equal, and a number is preferred
/// to what is none.
pub proof fn law_larger_and_smaller_bound_both(a: Double, b: Double)
    ensures
        a.larger(b) == a || a.larger(b) == b,
        a.smaller(b) == a || a.smaller(b) == b,
        !a.nan() && !b.nan() ==> a.larger(b).rank() >= a.rank() && a.larger(b).rank() >= b.rank(),
        !a.nan() && !b.nan() ==> a.smaller(b).rank() <= a.rank() && a.smaller(b).rank() <= b.rank(),
        a.nan() ==> a.larger(b) == b && a.smaller(b) == b,
        !a.nan() && !b.nan() && a.rank() == b.rank() ==> a.larger(b) == b && a.smaller(b) == b,
        !a.nan() && b.nan() ==> a.larger(b) == a && a.smaller(b) == a,
{
}

/// A number that is held between two bounds lies between them, and stays as it is where it did so
/// before; below them it is the lower, above them the upper one.
pub proof fn law_clamped_lies_between(d: Double, lo: Double, hi: Double)
    requires
        lo.at_most(hi),
    ensures
        !d.nan() ==> lo.rank() <= d.clamped(lo, hi).rank() <= hi.rank(),
        !d.nan() && lo.rank() <= d.rank() <= hi.rank() ==> d.clamped(lo, hi) == d,
        !d.nan() && d.rank() < lo.rank() ==> d.clamped(lo, hi) == lo,
        !d.nan() && d.rank() > hi.rank() ==> d.clamped(lo, hi) == hi,
        d.nan() ==> d.clamped(lo, hi) == d,
{
}

/// Zero is the number that is neither above nor below zero, without a sign.
pub proof fn law_zero_has_no_sign()
    ensures
        Double::zero_spec().bits == 0,
        Double::zero_spec().rank() == 0,
{
}

} // verus!
