//! Canvas geometry in exact arithmetic.

use vstd::arithmetic::power2::pow2;
use vstd::prelude::*;

verus! {

/// The size of the drawing surface in device pixels.
#[derive(Clone, Copy, Debug, PartialEq, Eq, Structural)]
pub struct CanvasDimensions {
    pub width: u32,
    pub height: u32,
}

/// A horizontal position of exactly `numerator / denominator` pixels.
#[derive(Clone, Copy, Debug, PartialEq, Eq, Structural)]
pub struct Ratio {
    pub numerator: u64,
    pub denominator: u32,
}

impl Ratio {
    /// A ratio denotes a number only over a positive denominator.
    pub open spec fn wf(self) -> bool {
        self.denominator > 0
    }

    /// `self <= other` as numbers, by cross-multiplication.
    pub open spec fn le(self, other: Ratio) -> bool {
        self.numerator * other.denominator <= other.numerator * self.denominator
    }

    /// `self` is the whole number `k`.
    pub open spec fn is_integer(self, k: int) -> bool {
        self.numerator == k * self.denominator
    }
}

/// A vertical position of exactly `mantissa * 2^exponent` pixels.
#[derive(Clone, Copy, Debug, PartialEq, Eq, Structural)]
pub struct Dyadic {
    pub mantissa: i64,
    pub exponent: i32,
}

impl Dyadic {
    /// The number denoted is zero.
    pub open spec fn is_zero(self) -> bool {
        self.mantissa == 0
    }

    /// The number denoted, multiplied by `2^precision`. It is a whole number
    /// as soon as `precision` makes up for a negative exponent.
    pub open spec fn scaled(self, precision: int) -> int
        recommends
            self.exponent + precision >= 0,
    {
        self.mantissa * pow2((self.exponent + precision) as nat)
    }
}

/// A point of the trace in device pixel coordinates.
#[derive(Clone, Copy, Debug, PartialEq, Eq, Structural)]
pub struct PixelPoint {
    pub x: Ratio,
    pub y: Dyadic,
}

} // verus!
