//! Single-precision numbers as bit patterns.
//!
//! Camera poses, angles and times reach this library as IEEE-754 binary32
//! bit patterns. The library stores them, compares them and flips their sign;
//! every operation that rounds is left to the host. The order defined here is
//! the numeric order of the format: NaN compares with nothing, and the two
//! zeros are equal.

use vstd::prelude::*;

verus! {

/// The sign bit of a binary32 pattern.
pub const SIGN_BIT: u32 = 0x8000_0000;

/// The pattern of positive infinity. A larger magnitude is a NaN.
pub const INFINITY_BITS: u32 = 0x7f80_0000;

/// The pattern of `0.0`.
pub const ZERO_BITS: u32 = 0;

/// The pattern of `1.0`.
pub const ONE_BITS: u32 = 0x3f80_0000;

/// A binary32 number, held as its bit pattern.
///
/// `==` on two scalars compares patterns, so it tells `0.0` from `-0.0` and
/// finds a NaN equal to itself.
#[derive(Clone, Copy, Debug, PartialEq, Eq, Structural)]
pub struct Scalar {
    pub bits: u32,
}

impl Scalar {
    /// Whether the sign bit is set. True of `-0.0` and of half the NaNs.
    pub open spec fn sign_negative(self) -> bool {
        self.bits >= SIGN_BIT
    }

    /// The pattern without its sign bit.
    pub open spec fn magnitude(self) -> u32 {
        if self.bits >= SIGN_BIT {
            (self.bits - SIGN_BIT) as u32
        } else {
            self.bits
        }
    }

    /// Whether the pattern is a NaN.
    pub open spec fn nan(self) -> bool {
        self.magnitude() > INFINITY_BITS
    }

    /// An integer that orders the numbers as their values do: for two
    /// scalars that are not NaN, the smaller number has the smaller rank, and
    /// equal numbers have equal ranks.
    pub open spec fn rank(self) -> int {
        if self.sign_negative() {
            -(self.magnitude() as int)
        } else {
            self.magnitude() as int
        }
    }

    /// `self < other`, as numbers.
    pub open spec fn less(self, other: Scalar) -> bool {
        !self.nan() && !other.nan() && self.rank() < other.rank()
    }

    /// `self >= other`, as numbers.
    pub open spec fn at_least(self, other: Scalar) -> bool {
        !self.nan() && !other.nan() && self.rank() >= other.rank()
    }

    /// The number with its sign flipped.
    pub open spec fn opposite(self) -> Scalar {
        if self.bits >= SIGN_BIT {
            Scalar { bits: (self.bits - SIGN_BIT) as u32 }
        } else {
            Scalar { bits: (self.bits + SIGN_BIT) as u32 }
        }
    }

    /// The smaller of two numbers. A NaN loses to a number; of two equal
    /// numbers the first is kept.
    pub open spec fn smaller(self, other: Scalar) -> Scalar {
        if self.nan() {
            other
        } else if other.nan() {
            self
        } else if other.less(self) {
            other
        } else {
            self
        }
    }

    /// The larger of two numbers. A NaN loses to a number; of two equal
    /// numbers the first is kept.
    pub open spec fn larger(self, other: Scalar) -> Scalar {
        if self.nan() {
            other
        } else if other.nan() {
            self
        } else if self.less(other) {
            other
        } else {
            self
        }
    }

    /// The number, brought into `[0, 1]`. A NaN becomes `1.0`.
    pub open spec fn unit_clamped(self) -> Scalar {
        self.smaller(Scalar { bits: ONE_BITS }).larger(Scalar { bits: ZERO_BITS })
    }

    /// Wraps a bit pattern.
    pub fn from_bits(bits: u32) -> (r: Scalar)
        ensures
            r.bits == bits,
    {
        Scalar { bits }
    }

    /// The bit pattern.
    pub fn to_bits(self) -> (r: u32)
        ensures
            r == self.bits,
    {
        self.bits
    }

    /// `0.0`.
    pub fn zero() -> (r: Scalar)
        ensures
            r.bits == ZERO_BITS,
    {
        Scalar { bits: ZERO_BITS }
    }

    /// `1.0`.
    pub fn one() -> (r: Scalar)
        ensures
            r.bits == ONE_BITS,
    {
        Scalar { bits: ONE_BITS }
    }

    /// The pattern without its sign bit.
    pub fn abs_bits(self) -> (r: u32)
        ensures
            r == self.magnitude(),
            r < SIGN_BIT,
    {
        if self.bits >= SIGN_BIT {
            self.bits - SIGN_BIT
        } else {
            self.bits
        }
    }

    /// Whether the pattern is a NaN.
    pub fn is_nan(self) -> (r: bool)
        ensures
            r == self.nan(),
    {
        self.abs_bits() > INFINITY_BITS
    }

    /// The number with its sign flipped: only the sign bit changes, also for
    /// zero, infinity and NaN.
    pub fn negated(self) -> (r: Scalar)
        ensures
            r == self.opposite(),
            r.magnitude() == self.magnitude(),
            r.sign_negative() != self.sign_negative(),
    {
        if self.bits >= SIGN_BIT {
            Scalar { bits: self.bits - SIGN_BIT }
        } else {
            Scalar { bits: self.bits + SIGN_BIT }
        }
    }

    /// `self < other`, as numbers; false when either is a NaN.
    pub fn lt(self, other: Scalar) -> (r: bool)
        ensures
            r == self.less(other),
    {
        if self.is_nan() || other.is_nan() {
            return false;
        }
        let a: u32 = self.abs_bits();
        let b: u32 = other.abs_bits();
        let a_neg: bool = self.bits >= SIGN_BIT;
        let b_neg: bool = other.bits >= SIGN_BIT;
        if a_neg {
            if b_neg {
                b < a
            } else {
                a != 0 || b != 0
            }
        } else {
            if b_neg {
                false
            } else {
                a < b
            }
        }
    }

    /// `self >= other`, as numbers; false when either is a NaN.
    pub fn ge(self, other: Scalar) -> (r: bool)
        ensures
            r == self.at_least(other),
    {
        if self.is_nan() || other.is_nan() {
            return false;
        }
        !self.lt(other)
    }

    /// Whether the number is below zero. False of both zeros and of NaN.
    pub fn is_negative(self) -> (r: bool)
        ensures
            r == self.less(Scalar { bits: ZERO_BITS }),
            r == (self.sign_negative() && !self.nan() && self.magnitude() != 0),
    {
        self.lt(Scalar { bits: ZERO_BITS })
    }

    /// Whether the number is above zero. False of both zeros and of NaN.
    pub fn is_positive(self) -> (r: bool)
        ensures
            r == (Scalar { bits: ZERO_BITS }).less(self),
            r == (!self.sign_negative() && !self.nan() && self.magnitude() != 0),
    {
        Scalar { bits: ZERO_BITS }.lt(self)
    }

    /// The smaller of two numbers, ignoring a NaN.
    pub fn min(self, other: Scalar) -> (r: Scalar)
        ensures
            r == self.smaller(other),
    {
        if self.is_nan() {
            other
        } else if other.is_nan() {
            self
        } else if other.lt(self) {
            other
        } else {
            self
        }
    }

    /// The larger of two numbers, ignoring a NaN.
    pub fn max(self, other: Scalar) -> (r: Scalar)
        ensures
            r == self.larger(other),
    {
        if self.is_nan() {
            other
        } else if other.is_nan() {
            self
        } else if self.lt(other) {
            other
        } else {
            self
        }
    }

    /// The number, brought into `[0, 1]`.
    pub fn clamp_unit(self) -> (r: Scalar)
        ensures
            r == self.unit_clamped(),
            r.at_least(Scalar { bits: ZERO_BITS }),
            (Scalar { bits: ONE_BITS }).at_least(r),
    {
        self.min(Scalar { bits: ONE_BITS }).max(Scalar { bits: ZERO_BITS })
    }
}

/// Flipping the sign mirrors the order: a number is below zero exactly when
/// its opposite is above zero, and a NaN stays a NaN.
pub proof fn lemma_opposite_mirrors(a: Scalar)
    ensures
        a.opposite().nan() == a.nan(),
        a.opposite().rank() == -a.rank(),
        a.opposite().opposite() == a,
        a.opposite().less(Scalar { bits: ZERO_BITS }) == (Scalar { bits: ZERO_BITS }).less(a),
{
}

/// The larger of a number and a floor that is not a NaN is never below the floor.
pub proof fn lemma_larger_reaches_floor(a: Scalar, floor: Scalar)
    requires
        !floor.nan(),
    ensures
        a.larger(floor).at_least(floor),
        !a.larger(floor).nan(),
{
}

} // verus!
