//! Number definitions for the radar sensor.
//!
//! The engine speaks in single precision numbers. The core carries such a
//! number as its bit pattern and decides the few questions that its rules ask
//! of one (is it zero, is it negative, does it lie below another) on the
//! pattern.

use vstd::prelude::*;

verus! {

/// The sign bit of a single precision pattern.
pub const SIGN_BIT: u32 = 0x8000_0000;

/// The pattern of positive infinity; every larger magnitude is not a number.
pub const INFINITY_BITS: u32 = 0x7f80_0000;

/// A single precision number, held as its IEEE 754 bit pattern.
///
/// Two values are equal where their patterns are: the two zeros differ, and
/// a pattern that is not a number equals itself.
#[derive(Debug, Clone, Copy, PartialEq, Eq, Structural)]
pub struct Float32 {
    /// The bit pattern: sign, exponent, fraction
    pub bits: u32,
}

impl Float32 {
    /// The pattern without its sign bit.
    pub open spec fn magnitude(self) -> int {
        if self.bits >= SIGN_BIT {
            self.bits - SIGN_BIT
        } else {
            self.bits as int
        }
    }

    /// Whether the sign bit is set.
    pub open spec fn negative(self) -> bool {
        self.bits >= SIGN_BIT
    }

    /// Whether the pattern stands for no number.
    pub open spec fn not_a_number(self) -> bool {
        self.magnitude() > INFINITY_BITS
    }

    /// Whether the pattern is one of the two zeros.
    pub open spec fn zero(self) -> bool {
        self.magnitude() == 0
    }

    /// Whether the number is above zero: it is a number, it is not zero and
    /// it has no sign. Positive infinity is above zero.
    pub open spec fn positive(self) -> bool {
        !self.not_a_number() && !self.zero() && !self.negative()
    }

    /// An integer that orders the numbers as their values do: the magnitude,
    /// negated under a sign bit. Both zeros have rank 0.
    pub open spec fn rank(self) -> int {
        if self.negative() {
            -self.magnitude()
        } else {
            self.magnitude()
        }
    }

    /// Whether `self` is less than `other`. Nothing is less than, or has
    /// anything less than, what is not a number.
    pub open spec fn below(self, other: Float32) -> bool {
        !self.not_a_number() && !other.not_a_number() && self.rank() < other.rank()
    }

    /// `self` restricted to the interval from `min` to `max`: `min` where
    /// `self` is below it, `max` where `self` is above it, else `self`. What
    /// is not a number stays as it is.
    pub open spec fn clamped(self, min: Float32, max: Float32) -> Float32 {
        if self.below(min) {
            min
        } else if max.below(self) {
            max
        } else {
            self
        }
    }

    /// The number with this bit pattern.
    pub fn from_bits(bits: u32) -> (number: Self)
        ensures
            number.bits == bits,
    {
        Self { bits }
    }

    /// The bit pattern of the number.
    pub fn to_bits(&self) -> (bits: u32)
        ensures
            bits == self.bits,
    {
        self.bits
    }

    /// The pattern without its sign bit.
    fn magnitude_bits(&self) -> (m: u32)
        ensures
            m as int == self.magnitude(),
            m < SIGN_BIT,
    {
        if self.bits >= SIGN_BIT {
            self.bits - SIGN_BIT
        } else {
            self.bits
        }
    }

    /// The rank of the number.
    fn rank_value(&self) -> (r: i64)
        ensures
            r as int == self.rank(),
    {
        let m: i64 = self.magnitude_bits() as i64;
        if self.bits >= SIGN_BIT {
            -m
        } else {
            m
        }
    }

    /// Returns `true` if the number is positive or negative zero.
    pub fn is_zero(&self) -> (r: bool)
        ensures
            r == self.zero(),
    {
        self.magnitude_bits() == 0
    }

    /// Returns `true` if the sign bit is set, as it is for negative numbers,
    /// for negative zero and for some patterns that are not a number.
    pub fn is_sign_negative(&self) -> (r: bool)
        ensures
            r == self.negative(),
    {
        self.bits >= SIGN_BIT
    }

    /// Returns `true` if the pattern stands for no number.
    pub fn is_nan(&self) -> (r: bool)
        ensures
            r == self.not_a_number(),
    {
        self.magnitude_bits() > INFINITY_BITS
    }

    /// Returns `true` if the number is above zero.
    pub fn is_positive(&self) -> (r: bool)
        ensures
            r == self.positive(),
    {
        !self.is_nan() && !self.is_zero() && !self.is_sign_negative()
    }

    /// Returns `true` if the number is less than `other`.
    pub fn lt(&self, other: &Float32) -> (r: bool)
        ensures
            r == self.below(*other),
    {
        !self.is_nan() && !other.is_nan() && self.rank_value() < other.rank_value()
    }

    /// Restricts the number to the interval from `min` to `max`.
    pub fn clamp(self, min: Float32, max: Float32) -> (r: Float32)
        requires
            !min.not_a_number(),
            !max.not_a_number(),
            min.rank() <= max.rank(),
        ensures
            r == self.clamped(min, max),
    {
        if self.lt(&min) {
            min
        } else if max.lt(&self) {
            max
        } else {
            self
        }
    }
}

/// What is restricted to an interval lies in it: a number, restricted to the
/// interval from `min` to `max`, is not below `min` and not above `max`, and
/// is the number itself where that lies in the interval already. What is not
/// a number stays what it is.
pub proof fn lemma_clamped_lies_within(number: Float32, min: Float32, max: Float32)
    requires
        !min.not_a_number(),
        !max.not_a_number(),
        min.rank() <= max.rank(),
    ensures
        number.not_a_number() ==> number.clamped(min, max) == number,
        !number.not_a_number() ==> min.rank() <= number.clamped(min, max).rank() <= max.rank(),
        !number.not_a_number() ==> !number.clamped(min, max).not_a_number(),
        min.rank() <= number.rank() <= max.rank() ==> number.clamped(min, max) == number,
        number.clamped(min, max).clamped(min, max) == number.clamped(min, max),
{
}

/// A complex sample of the sensor: two signed 16 bit parts.
#[derive(Debug, Clone, Copy, PartialEq, Eq, Structural)]
pub struct AccComplex {
    /// The real part
    pub real: i16,
    /// The imaginary part
    pub imag: i16,
}

impl AccComplex {
    /// The sample whose parts are both zero.
    pub fn new() -> (sample: Self)
        ensures
            sample == (AccComplex { real: 0, imag: 0 }),
    {
        Self { real: 0, imag: 0 }
    }
}

impl Default for AccComplex {
    fn default() -> (sample: Self)
        ensures
            sample == (AccComplex { real: 0, imag: 0 }),
    {
        Self { real: 0, imag: 0 }
    }
}

/// A distance along the sweep, counted in points of about 2.5 mm.
#[derive(Debug, Clone, Copy, PartialEq, Eq, Structural)]
pub struct Points {
    /// The number of points
    pub points: i32,
}

impl Points {
    /// The distance of this many points.
    pub fn new(points: i32) -> (distance: Self)
        ensures
            distance.points == points,
    {
        Self { points }
    }
}

impl Default for Points {
    fn default() -> (distance: Self)
        ensures
            distance.points == 0,
    {
        Self { points: 0 }
    }
}

} // verus!
