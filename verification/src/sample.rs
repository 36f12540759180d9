//! Amplitude samples and their decoding from IEEE 754 single precision.

use vstd::arithmetic::power2::pow2;
use vstd::prelude::*;

verus! {

/// Width of the fraction field of a single-precision word.
pub const FRACTION_BITS: u32 = 23;

/// Exponent field of infinities and NaNs.
pub const EXPONENT_SPECIAL: u32 = 255;

/// Exponent of the least significant fraction bit of a subnormal number.
pub const EXPONENT_MIN: i16 = -149;

/// What the exponent field of a normal word exceeds the exponent of its
/// least significant fraction bit by.
pub const EXPONENT_BIAS: i16 = 150;

/// An amplitude of exactly `mantissa * 2^exponent`.
#[derive(Clone, Copy, Debug, PartialEq, Eq, Structural)]
pub struct Sample {
    pub mantissa: i32,
    pub exponent: i16,
}

/// The sign bit of a single-precision word.
pub open spec fn sign_field(bits: u32) -> bool {
    bits >= 0x8000_0000
}

/// The biased exponent of a single-precision word.
pub open spec fn exponent_field(bits: u32) -> int {
    (bits as int / 0x80_0000) % 0x100
}

/// The fraction bits of a single-precision word.
pub open spec fn fraction_field(bits: u32) -> int {
    bits as int % 0x80_0000
}

impl Sample {
    /// Silence: what the word of all zero bits decodes to.
    pub open spec fn zero() -> Sample {
        Sample { mantissa: 0, exponent: EXPONENT_MIN }
    }

    /// The number denoted is zero.
    pub open spec fn is_zero(self) -> bool {
        self.mantissa == 0
    }

    /// The number denoted, multiplied by `2^precision`. It is a whole number
    /// as soon as `precision` makes up for a negative exponent.
    pub open spec fn scaled(self, precision: int) -> int
        recommends
            self.exponent + precision >= 0,
    {
        self.mantissa * pow2((self.exponent + precision) as nat)
    }

    /// The finite number that a single-precision word encodes, or `None` for
    /// an infinity or a NaN.
    ///
    /// A subnormal word is `±fraction * 2^-149`; a normal word carries an
    /// implicit leading one: `±(2^23 + fraction) * 2^(exponent field - 150)`.
    pub open spec fn decode(bits: u32) -> Option<Sample> {
        let magnitude = if exponent_field(bits) == 0 {
            fraction_field(bits)
        } else {
            0x80_0000 + fraction_field(bits)
        };
        let exponent = if exponent_field(bits) == 0 {
            EXPONENT_MIN as int
        } else {
            exponent_field(bits) - EXPONENT_BIAS
        };
        if exponent_field(bits) == EXPONENT_SPECIAL {
            None
        } else {
            Some(
                Sample {
                    mantissa: (if sign_field(bits) {
                        -magnitude
                    } else {
                        magnitude
                    }) as i32,
                    exponent: exponent as i16,
                },
            )
        }
    }

    /// Decodes a single-precision word.
    pub fn from_bits(bits: u32) -> (sample: Option<Sample>)
        ensures
            sample == Sample::decode(bits),
            sample is Some ==> -0x100_0000 < sample->0.mantissa < 0x100_0000,
            sample is Some ==> -149 <= sample->0.exponent <= 104,
    {
        let fraction: u32 = bits & 0x007f_ffff;
        let biased: u32 = (bits >> FRACTION_BITS) & 0xff;
        let negative: bool = bits >= 0x8000_0000;
        assert(fraction == bits % 0x80_0000 && fraction < 0x80_0000) by (bit_vector)
            requires
                fraction == bits & 0x007f_ffff,
        ;
        assert(biased == (bits / 0x80_0000) % 0x100 && biased < 0x100) by (bit_vector)
            requires
                biased == (bits >> 23) & 0xff,
        ;
        if biased == EXPONENT_SPECIAL {
            return None;
        }
        let magnitude: i32 = if biased == 0 {
            fraction as i32
        } else {
            (fraction + 0x80_0000) as i32
        };
        let exponent: i16 = if biased == 0 {
            EXPONENT_MIN
        } else {
            (biased as i16) - EXPONENT_BIAS
        };
        let mantissa: i32 = if negative {
            -magnitude
        } else {
            magnitude
        };
        Some(Sample { mantissa, exponent })
    }
}

} // verus!
