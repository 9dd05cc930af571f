//! Script numbers.
//!
//! The interpreter knows one numeric type, the IEEE 754 binary64 value. The
//! bridge carries such a value by its 64-bit pattern and converts it to a
//! native integer by rounding toward zero and saturating at the bounds of the
//! target type; a NaN converts to zero.

use vstd::prelude::*;
use vstd::arithmetic::div_mod::{lemma_basic_div, lemma_div_by_multiple};
use vstd::arithmetic::mul::{lemma_mul_increases, lemma_mul_is_associative};
use vstd::arithmetic::power2::{
    lemma2_to64, lemma2_to64_rest, lemma_pow2_pos, lemma_pow2_strictly_increases,
    lemma_pow2_unfold, pow2,
};
use vstd::bits::lemma_u64_shr_is_div;

verus! {

/// Two to the power 52: the weight of the implicit leading bit of a normal
/// significand, and the number of patterns of the fraction field.
pub const HIDDEN_BIT: u64 = 0x10_0000_0000_0000;

/// The pattern with only the sign bit set.
pub const SIGN_BIT: u64 = 0x8000_0000_0000_0000;

/// The exponent field of infinities and NaNs.
pub const EXPONENT_MAX: u64 = 2047;

/// The exponent field of the values in `[1, 2)`.
pub const EXPONENT_BIAS: u64 = 1023;

/// The exponent field from which on a normal value is its significand times a
/// non-negative power of two.
pub const EXPONENT_WHOLE: u64 = 1075;

/// A script number, held as the bit pattern of a binary64 value.
///
/// Two numbers are equal when their patterns are: positive and negative zero
/// differ, and a NaN equals itself.
#[derive(Clone, Copy, Debug, PartialEq, Eq, Structural)]
pub struct Number {
    pub bits: u64,
}

impl Number {
    /// The sign bit is set.
    pub open spec fn negative(self) -> bool {
        self.bits >= SIGN_BIT
    }

    /// The biased exponent field, 11 bits wide.
    pub open spec fn exponent(self) -> nat {
        ((self.bits / HIDDEN_BIT) % 2048) as nat
    }

    /// The fraction field, 52 bits wide.
    pub open spec fn fraction(self) -> nat {
        (self.bits % HIDDEN_BIT) as nat
    }

    /// The pattern is one of the values that are no number.
    pub open spec fn is_nan(self) -> bool {
        self.exponent() == EXPONENT_MAX && self.fraction() != 0
    }

    /// The pattern is one of the two infinities.
    pub open spec fn is_infinite(self) -> bool {
        self.exponent() == EXPONENT_MAX && self.fraction() == 0
    }

    /// The significand as a natural number: the fraction, with the implicit
    /// leading bit in front of it unless the value is subnormal.
    pub open spec fn significand(self) -> nat {
        if self.exponent() == 0 {
            self.fraction()
        } else {
            (HIDDEN_BIT + self.fraction()) as nat
        }
    }

    /// The power of two that scales the significand: the magnitude of a
    /// finite number is `significand() * 2^scale()`.
    pub open spec fn scale(self) -> int {
        if self.exponent() == 0 {
            1 - EXPONENT_WHOLE
        } else {
            self.exponent() - EXPONENT_WHOLE
        }
    }

    /// The magnitude of a finite number, rounded down to a natural number.
    pub open spec fn whole(self) -> nat {
        if self.scale() >= 0 {
            self.significand() * pow2(self.scale() as nat)
        } else {
            self.significand() / pow2((-self.scale()) as nat)
        }
    }

    /// A finite number rounded toward zero.
    pub open spec fn truncated(self) -> int {
        if self.negative() {
            -(self.whole() as int)
        } else {
            self.whole() as int
        }
    }

    /// The number as an integer of the range `lo..=hi`: rounded toward zero,
    /// held at the nearer bound when it lies outside, zero for a NaN.
    pub open spec fn saturated(self, lo: int, hi: int) -> int {
        if self.is_nan() {
            0
        } else if self.is_infinite() {
            if self.negative() {
                lo
            } else {
                hi
            }
        } else if self.truncated() < lo {
            lo
        } else if self.truncated() > hi {
            hi
        } else {
            self.truncated()
        }
    }

    /// The number is the whole number `value`, and positive zero where
    /// `value` is zero: a normal value whose significand, scaled, is the
    /// magnitude of `value` with nothing left over.
    pub open spec fn is_whole(self, value: int) -> bool {
        if value == 0 {
            self.bits == 0
        } else {
            &&& self.negative() == (value < 0)
            &&& 0 < self.exponent() < EXPONENT_MAX
            &&& if self.scale() >= 0 {
                self.significand() * pow2(self.scale() as nat) == if value < 0 {
                    -value
                } else {
                    value
                }
            } else {
                self.significand() == (if value < 0 {
                    -value
                } else {
                    value
                }) * pow2((-self.scale()) as nat)
            }
        }
    }

    /// The number as an `i8`.
    pub open spec fn spec_i8(self) -> i8 {
        self.saturated(i8::MIN as int, i8::MAX as int) as i8
    }

    /// The number as a `u8`.
    pub open spec fn spec_u8(self) -> u8 {
        self.saturated(0, u8::MAX as int) as u8
    }

    /// The number as a `u16`.
    pub open spec fn spec_u16(self) -> u16 {
        self.saturated(0, u16::MAX as int) as u16
    }

    /// The number as an `i32`.
    pub open spec fn spec_i32(self) -> i32 {
        self.saturated(i32::MIN as int, i32::MAX as int) as i32
    }

    /// The number as a `u32`.
    pub open spec fn spec_u32(self) -> u32 {
        self.saturated(0, u32::MAX as int) as u32
    }

    /// A number below one in magnitude has no whole part.
    proof fn lemma_fraction_only(self)
        requires
            self.exponent() < EXPONENT_BIAS,
        ensures
            self.whole() == 0,
    {
        let down: nat = (-self.scale()) as nat;
        lemma2_to64_rest();
        if down > 53 {
            lemma_pow2_strictly_increases(53, down);
        }
        lemma_basic_div(self.significand() as int, pow2(down) as int);
    }

    /// A finite number whose exponent field is at least `EXPONENT_WHOLE` is
    /// at least two to the power 52 in magnitude.
    proof fn lemma_beyond_fraction(self)
        requires
            EXPONENT_WHOLE <= self.exponent(),
        ensures
            self.whole() >= HIDDEN_BIT,
    {
        let up: nat = self.scale() as nat;
        lemma_pow2_pos(up);
        lemma_mul_increases(pow2(up) as int, self.significand() as int);
    }

    /// A number that is a whole number is finite, and rounding leaves it as
    /// it is.
    pub proof fn lemma_whole(self, value: int)
        requires
            self.is_whole(value),
        ensures
            !self.is_nan(),
            !self.is_infinite(),
            self.truncated() == value,
    {
        if value == 0 {
            self.lemma_fraction_only();
        } else if self.scale() < 0 {
            let down: nat = (-self.scale()) as nat;
            lemma_pow2_pos(down);
            lemma_div_by_multiple(if value < 0 { -value } else { value }, pow2(down) as int);
        }
    }

    /// The pattern with the given sign, exponent field and fraction field
    /// has those fields.
    proof fn lemma_fields(negative: bool, exponent: u64, fraction: u64)
        requires
            exponent <= EXPONENT_MAX,
            fraction < HIDDEN_BIT,
        ensures
            ({
                let n = Number {
                    bits: ((if negative {
                        SIGN_BIT as int
                    } else {
                        0
                    }) + exponent * HIDDEN_BIT + fraction) as u64,
                };
                &&& n.negative() == negative
                &&& n.exponent() == exponent
                &&& n.fraction() == fraction
            }),
    {
    }

    /// The number as an integer of `lo..=hi`, for bounds that lie within two
    /// to the power 52 of zero.
    fn clamped(self, lo: i64, hi: i64) -> (r: i64)
        requires
            -HIDDEN_BIT <= lo <= 0,
            0 <= hi <= HIDDEN_BIT,
        ensures
            r == self.saturated(lo as int, hi as int),
    {
        let exponent: u64 = (self.bits / HIDDEN_BIT) % 2048;
        let fraction: u64 = self.bits % HIDDEN_BIT;
        let negative: bool = self.bits >= SIGN_BIT;
        if exponent == EXPONENT_MAX {
            if fraction != 0 {
                0
            } else if negative {
                lo
            } else {
                hi
            }
        } else if exponent < EXPONENT_BIAS {
            proof {
                self.lemma_fraction_only();
            }
            0
        } else if exponent >= EXPONENT_WHOLE {
            proof {
                self.lemma_beyond_fraction();
            }
            if negative {
                lo
            } else {
                hi
            }
        } else {
            let shift: u64 = EXPONENT_WHOLE - exponent;
            let whole: u64 = (HIDDEN_BIT + fraction) >> shift;
            proof {
                lemma_u64_shr_is_div((HIDDEN_BIT + fraction) as u64, shift);
                assert(whole == self.whole());
            }
            if negative {
                if whole >= (-lo) as u64 {
                    lo
                } else {
                    -(whole as i64)
                }
            } else {
                if whole >= hi as u64 {
                    hi
                } else {
                    whole as i64
                }
            }
        }
    }

    /// The number that has the given bit pattern.
    pub fn from_bits(bits: u64) -> (n: Number)
        ensures
            n.bits == bits,
    {
        Number { bits }
    }

    /// The bit pattern of the number.
    pub fn to_bits(self) -> (bits: u64)
        ensures
            bits == self.bits,
    {
        self.bits
    }

    /// The number that is the whole number `value`: the number under which
    /// a script names the opcode `value`.
    pub fn from_i32(value: i32) -> (n: Number)
        ensures
            n.is_whole(value as int),
            n.spec_i32() == value,
    {
        if value == 0 {
            let n = Number { bits: 0 };
            proof {
                n.lemma_whole(0);
            }
            return n;
        }
        let negative: bool = value < 0;
        let magnitude: u64 = if negative {
            (-(value as i64)) as u64
        } else {
            value as u64
        };
        let mut significand: u64 = magnitude;
        let mut exponent: u64 = EXPONENT_WHOLE;
        proof {
            lemma2_to64();
            assert(magnitude * pow2(0) == magnitude) by (nonlinear_arith)
                requires
                    pow2(0) == 1,
            ;
        }
        while significand < HIDDEN_BIT
            invariant
                0 < magnitude <= 0x8000_0000,
                0 < significand < 2 * HIDDEN_BIT,
                EXPONENT_BIAS <= exponent <= EXPONENT_WHOLE,
                significand == magnitude * pow2((EXPONENT_WHOLE - exponent) as nat),
                significand >= pow2((EXPONENT_WHOLE - exponent) as nat),
            decreases 2 * HIDDEN_BIT - significand,
        {
            proof {
                let down: nat = (EXPONENT_WHOLE - exponent) as nat;
                lemma_pow2_unfold(down + 1);
                lemma_mul_is_associative(magnitude as int, pow2(down) as int, 2);
                lemma2_to64_rest();
                assert(down < 52) by {
                    if down > 52 {
                        lemma_pow2_strictly_increases(52, down);
                    }
                }
            }
            significand = significand * 2;
            exponent = exponent - 1;
        }
        let sign: u64 = if negative {
            SIGN_BIT
        } else {
            0
        };
        let fraction: u64 = significand - HIDDEN_BIT;
        let n = Number { bits: sign + exponent * HIDDEN_BIT + fraction };
        proof {
            Number::lemma_fields(negative, exponent, fraction);
            assert(n.significand() == significand);
            if exponent == EXPONENT_WHOLE {
                assert(pow2(0) == 1);
            }
            n.lemma_whole(value as int);
        }
        n
    }

    /// Positive zero.
    pub fn zero() -> (n: Number)
        ensures
            n.bits == 0,
            n.is_whole(0),
    {
        Number { bits: 0 }
    }

    /// The script's way of saying that a call was refused.
    pub fn minus_one() -> (n: Number)
        ensures
            n.bits == 0xBFF0_0000_0000_0000,
            n.is_whole(-1),
    {
        let n = Number { bits: 0xBFF0_0000_0000_0000 };
        proof {
            lemma2_to64_rest();
            assert(n.exponent() == EXPONENT_BIAS);
            assert(n.significand() == 1 * pow2(52));
        }
        n
    }

    /// The unit, the zoom of a blit that neither grows nor shrinks.
    pub fn one() -> (n: Number)
        ensures
            n.bits == 0x3FF0_0000_0000_0000,
            n.is_whole(1),
    {
        let n = Number { bits: 0x3FF0_0000_0000_0000 };
        proof {
            lemma2_to64_rest();
            assert(n.exponent() == EXPONENT_BIAS);
            assert(n.significand() == 1 * pow2(52));
        }
        n
    }

    pub fn to_i8(self) -> (r: i8)
        ensures
            r == self.spec_i8(),
    {
        self.clamped(-128, 127) as i8
    }

    pub fn to_u8(self) -> (r: u8)
        ensures
            r == self.spec_u8(),
    {
        self.clamped(0, 255) as u8
    }

    pub fn to_u16(self) -> (r: u16)
        ensures
            r == self.spec_u16(),
    {
        self.clamped(0, 65535) as u16
    }

    pub fn to_i32(self) -> (r: i32)
        ensures
            r == self.spec_i32(),
    {
        self.clamped(-2147483648, 2147483647) as i32
    }

    pub fn to_u32(self) -> (r: u32)
        ensures
            r == self.spec_u32(),
    {
        self.clamped(0, 4294967295) as u32
    }
}

} // verus!
