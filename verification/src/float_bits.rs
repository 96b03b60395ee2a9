//! Floating-point numbers by their IEEE 754 bit patterns.
//!
//! The rules carry floating-point values through and compare them with fixed
//! limits; they never do arithmetic on them. A comparison needs only the bits:
//! two numbers are ordered as their signed magnitudes are, and a NaN is ordered
//! with nothing.

use vstd::prelude::*;

verus! {

/// A single-precision number.
#[derive(Clone, Copy, Debug, PartialEq, Eq, Structural)]
pub struct Single {
    pub bits: u32,
}

impl Single {
    /// The magnitude bits: everything but the sign.
    pub open spec fn magnitude(self) -> int {
        self.bits as int % 0x8000_0000
    }

    /// Exponent all ones and a fraction other than zero.
    pub open spec fn is_nan(self) -> bool {
        self.magnitude() > 0x7f80_0000
    }

    /// The place of the number among all numbers; both zeros are at 0.
    pub open spec fn rank(self) -> int {
        if self.bits < 0x8000_0000 {
            self.magnitude()
        } else {
            -self.magnitude()
        }
    }

    /// `self > other` as IEEE 754 has it.
    pub open spec fn greater(self, other: Single) -> bool {
        &&& !self.is_nan()
        &&& !other.is_nan()
        &&& self.rank() > other.rank()
    }

    fn signed_magnitude(self) -> (rank: i64)
        ensures
            rank == self.rank(),
    {
        if self.bits < 0x8000_0000 {
            self.bits as i64
        } else {
            0x8000_0000i64 - self.bits as i64
        }
    }

    fn nan(self) -> (result: bool)
        ensures
            result == self.is_nan(),
    {
        self.bits % 0x8000_0000 > 0x7f80_0000
    }

    /// Whether `self > other`.
    pub fn is_greater_than(self, other: Single) -> (result: bool)
        ensures
            result == self.greater(other),
    {
        !self.nan() && !other.nan() && self.signed_magnitude() > other.signed_magnitude()
    }
}

/// A double-precision number.
#[derive(Clone, Copy, Debug, PartialEq, Eq, Structural)]
pub struct Double {
    pub bits: u64,
}

impl Double {
    /// The magnitude bits: everything but the sign.
    pub open spec fn magnitude(self) -> int {
        self.bits as int % 0x8000_0000_0000_0000
    }

    /// Exponent all ones and a fraction other than zero.
    pub open spec fn is_nan(self) -> bool {
        self.magnitude() > 0x7ff0_0000_0000_0000
    }

    /// The place of the number among all numbers; both zeros are at 0.
    pub open spec fn rank(self) -> int {
        if self.bits < 0x8000_0000_0000_0000 {
            self.magnitude()
        } else {
            -self.magnitude()
        }
    }

    /// `self < other` as IEEE 754 has it.
    pub open spec fn less(self, other: Double) -> bool {
        &&& !self.is_nan()
        &&& !other.is_nan()
        &&& self.rank() < other.rank()
    }

    fn signed_magnitude(self) -> (rank: i128)
        ensures
            rank == self.rank(),
    {
        if self.bits < 0x8000_0000_0000_0000 {
            self.bits as i128
        } else {
            0x8000_0000_0000_0000i128 - self.bits as i128
        }
    }

    fn nan(self) -> (result: bool)
        ensures
            result == self.is_nan(),
    {
        self.bits % 0x8000_0000_0000_0000 > 0x7ff0_0000_0000_0000
    }

    /// Whether `self < other`.
    pub fn is_less_than(self, other: Double) -> (result: bool)
        ensures
            result == self.less(other),
    {
        !self.nan() && !other.nan() && self.signed_magnitude() < other.signed_magnitude()
    }

    /// The number without its sign.
    pub fn abs(self) -> (result: Double)
        ensures
            result.bits == self.magnitude(),
    {
        Double { bits: self.bits % 0x8000_0000_0000_0000 }
    }
}

} // verus!
