//! Real numbers as bit patterns.

use vstd::prelude::*;

verus! {

/// The bit pattern of positive zero.
pub const ZERO_BITS: u64 = 0;

/// The bit pattern of negative zero.
pub const NEGATIVE_ZERO_BITS: u64 = 0x8000_0000_0000_0000;

/// The sign bit; the bit patterns from here on have a negative sign.
pub const SIGN_BIT: u64 = 0x8000_0000_0000_0000;

/// The magnitude of infinity: every exponent bit and no fraction bit.
pub const INFINITY_MAGNITUDE: u64 = 0x7FF0_0000_0000_0000;

/// The bit pattern of one.
pub const ONE_BITS: u64 = 0x3FF0_0000_0000_0000;

/// The bit pattern of two.
pub const TWO_BITS: u64 = 0x4000_0000_0000_0000;

/// A real number, held as the bit pattern of the IEEE 754 double that stands
/// for it: one sign bit, eleven exponent bits, fifty-two fraction bits.
#[derive(Clone, Copy, Debug, PartialEq, Eq, Structural)]
pub struct Real {
    pub bits: u64,
}

impl Real {
    /// Whether the number is zero, of either sign.
    pub open spec fn is_zero(self) -> bool {
        self.bits == ZERO_BITS || self.bits == NEGATIVE_ZERO_BITS
    }

    /// The bits without the sign bit. Among numbers of one sign, a greater
    /// magnitude is a number further from zero.
    pub open spec fn magnitude(self) -> int {
        self.bits as int % SIGN_BIT as int
    }

    /// Whether the sign bit is set.
    pub open spec fn negative(self) -> bool {
        self.bits >= SIGN_BIT
    }

    /// Whether the bit pattern stands for no number: every exponent bit is
    /// set, and some fraction bit.
    pub open spec fn is_nan(self) -> bool {
        self.magnitude() > INFINITY_MAGNITUDE
    }

    /// An integer that is ordered as the number is: for two patterns that
    /// stand for numbers, the first number is less than the second if and
    /// only if its rank is, and the two are equal if and only if their ranks
    /// are. Both zeros have rank zero.
    pub open spec fn rank(self) -> int {
        if self.negative() {
            -self.magnitude()
        } else {
            self.magnitude()
        }
    }

    /// Whether the number is greater than zero.
    pub open spec fn positive(self) -> bool {
        !self.is_nan() && self.rank() > 0
    }

    /// The number with the given bit pattern.
    pub fn from_bits(bits: u64) -> (r: Real)
        ensures
            r.bits == bits,
    {
        Real { bits }
    }

    /// The bit pattern of the number.
    pub fn to_bits(&self) -> (r: u64)
        ensures
            r == self.bits,
    {
        self.bits
    }

    /// Zero, with a positive sign.
    pub fn zero() -> (r: Real)
        ensures
            r.bits == ZERO_BITS,
    {
        Real { bits: ZERO_BITS }
    }

    /// One.
    pub fn one() -> (r: Real)
        ensures
            r.bits == ONE_BITS,
    {
        Real { bits: ONE_BITS }
    }

    /// Two.
    pub fn two() -> (r: Real)
        ensures
            r.bits == TWO_BITS,
    {
        Real { bits: TWO_BITS }
    }

    /// Tells whether the number is zero, of either sign.
    pub fn zero_valued(&self) -> (r: bool)
        ensures
            r == self.is_zero(),
            r == (!self.is_nan() && self.rank() == 0),
    {
        self.bits == ZERO_BITS || self.bits == NEGATIVE_ZERO_BITS
    }

    /// Tells whether the bit pattern stands for no number.
    pub fn nan(&self) -> (r: bool)
        ensures
            r == self.is_nan(),
    {
        self.bits % SIGN_BIT > INFINITY_MAGNITUDE
    }

    /// Tells whether the number is greater than zero. Of a pattern that
    /// stands for no number this is false.
    pub fn is_positive(&self) -> (r: bool)
        ensures
            r == self.positive(),
    {
        let magnitude = self.bits % SIGN_BIT;
        self.bits < SIGN_BIT && 0 < magnitude && magnitude <= INFINITY_MAGNITUDE
    }

    /// Tells whether the number is less than another. Where either pattern
    /// stands for no number this is false.
    pub fn less_than(&self, other: &Real) -> (r: bool)
        ensures
            r == (!self.is_nan() && !other.is_nan() && self.rank() < other.rank()),
    {
        if self.nan() || other.nan() {
            return false;
        }
        let a = self.bits % SIGN_BIT;
        let b = other.bits % SIGN_BIT;
        if self.bits >= SIGN_BIT {
            if other.bits >= SIGN_BIT {
                b < a
            } else {
                a != 0 || b != 0
            }
        } else {
            if other.bits >= SIGN_BIT {
                false
            } else {
                a < b
            }
        }
    }

    /// Tells whether the number equals another as numbers do: the two zeros
    /// are equal. Where either pattern stands for no number this is false.
    pub fn same_as(&self, other: &Real) -> (r: bool)
        ensures
            r == (!self.is_nan() && !other.is_nan() && self.rank() == other.rank()),
    {
        if self.nan() || other.nan() {
            return false;
        }
        let a = self.bits % SIGN_BIT;
        let b = other.bits % SIGN_BIT;
        if a == 0 && b == 0 {
            true
        } else {
            self.bits == other.bits
        }
    }
}

} // verus!
