//! Binary floating-point numbers, held by their bit patterns.
//!
//! Components carry such numbers, and the systems store and move them. What the
//! systems need to know of a number -- whether it is zero, which whole number
//! it truncates to -- is read off the encoding with integer arithmetic. No
//! number is ever rounded here: the arithmetic of a tick is done by the host.

use vstd::arithmetic::div_mod::lemma_basic_div;
use vstd::arithmetic::mul::lemma_mul_inequality;
use vstd::arithmetic::power2::{lemma2_to64, lemma_pow2_pos, lemma_pow2_strictly_increases, pow2};
use vstd::prelude::*;

verus! {

/// The encoding of `1.0` in binary32.
pub const ONE_BITS: u32 = 0x3F80_0000;

/// The encoding of `-1.0` in binary32.
pub const NEG_ONE_BITS: u32 = 0xBF80_0000;

/// The encoding of `-0.0` in binary32: the sign bit alone.
pub const SIGN_BITS: u32 = 0x8000_0000;

/// The weight of the lowest exponent bit in binary32: `2^23`.
pub const HIDDEN_BIT: u32 = 0x80_0000;

/// A number in IEEE 754 binary32 format, held by its bit pattern.
///
/// From the highest bit down: one sign bit, eight bits of biased exponent,
/// twenty-three bits of fraction.
#[derive(Debug, Clone, Copy, PartialEq, Eq, Hash, Structural)]
pub struct Single {
    pub bits: u32,
}

/// A number in IEEE 754 binary64 format, held by its bit pattern.
#[derive(Debug, Clone, Copy, PartialEq, Eq, Hash, Structural)]
pub struct Double {
    pub bits: u64,
}

impl Double {
    /// The number with the given encoding.
    pub fn from_bits(bits: u64) -> (d: Double)
        ensures
            d.bits == bits,
    {
        Double { bits }
    }

    /// The encoding of the number.
    pub fn to_bits(self) -> (bits: u64)
        ensures
            bits == self.bits,
    {
        self.bits
    }
}

impl Single {
    /// The biased exponent field, in `0..=255`.
    pub open spec fn exponent(self) -> int {
        (self.bits as int / 0x80_0000) % 0x100
    }

    /// The fraction field, in `0..2^23`.
    pub open spec fn fraction(self) -> int {
        self.bits as int % 0x80_0000
    }

    /// Whether the sign bit is set.
    pub open spec fn negative(self) -> bool {
        self.bits >= 0x8000_0000
    }

    /// Whether the number is `+0.0` or `-0.0`.
    pub open spec fn spec_is_zero(self) -> bool {
        self.bits == 0 || self.bits == 0x8000_0000
    }

    /// Whether the encoding is that of a NaN.
    pub open spec fn spec_is_nan(self) -> bool {
        self.exponent() == 255 && self.fraction() != 0
    }

    /// The significand as a whole number: the fraction, with the hidden bit
    /// in front unless the number is subnormal.
    pub open spec fn significand(self) -> int {
        if self.exponent() == 0 {
            self.fraction()
        } else {
            self.fraction() + 0x80_0000
        }
    }

    /// The power of two that scales the significand, offset by 150: the
    /// magnitude of the number is `significand * 2^(scale - 150)`.
    pub open spec fn scale(self) -> int {
        if self.exponent() == 0 {
            1
        } else {
            self.exponent()
        }
    }

    /// The magnitude with everything behind the binary point cut off. An
    /// infinity counts as `2^128`.
    pub open spec fn whole(self) -> int {
        if self.scale() >= 150 {
            self.significand() * pow2((self.scale() - 150) as nat)
        } else {
            self.significand() / (pow2((150 - self.scale()) as nat) as int)
        }
    }

    /// The 32-bit signed integer that the number converts to: a NaN gives 0,
    /// any other number is cut off toward zero and then brought into the range
    /// of the integer type.
    pub open spec fn truncated(self) -> int {
        if self.spec_is_nan() {
            0
        } else if self.negative() {
            if self.whole() >= 0x8000_0000 {
                i32::MIN as int
            } else {
                -self.whole()
            }
        } else {
            if self.whole() > i32::MAX {
                i32::MAX as int
            } else {
                self.whole()
            }
        }
    }

    /// The number `direction`, which is -1, 0 or 1 (anything else counts as 0).
    pub open spec fn unit(direction: int) -> Single {
        if direction == 1 {
            Single { bits: ONE_BITS }
        } else if direction == -1 {
            Single { bits: NEG_ONE_BITS }
        } else {
            Single { bits: 0 }
        }
    }

    /// The number with the given encoding.
    pub fn from_bits(bits: u32) -> (s: Single)
        ensures
            s.bits == bits,
    {
        Single { bits }
    }

    /// The encoding of the number.
    pub fn to_bits(self) -> (bits: u32)
        ensures
            bits == self.bits,
    {
        self.bits
    }

    /// `+0.0`.
    pub fn zero() -> (s: Single)
        ensures
            s == Single::unit(0),
    {
        Single { bits: 0 }
    }

    /// `1.0`.
    pub fn one() -> (s: Single)
        ensures
            s == Single::unit(1),
    {
        Single { bits: ONE_BITS }
    }

    /// `-1.0`.
    pub fn neg_one() -> (s: Single)
        ensures
            s == Single::unit(-1),
    {
        Single { bits: NEG_ONE_BITS }
    }

    /// Whether the number is `+0.0` or `-0.0`.
    #[verifier::when_used_as_spec(spec_is_zero)]
    pub fn is_zero(self) -> (r: bool)
        ensures
            r == self.spec_is_zero(),
    {
        self.bits == 0 || self.bits == SIGN_BITS
    }

    /// Whether the encoding is that of a NaN.
    #[verifier::when_used_as_spec(spec_is_nan)]
    pub fn is_nan(self) -> (r: bool)
        ensures
            r == self.spec_is_nan(),
    {
        (self.bits / HIDDEN_BIT) % 0x100 == 255 && self.bits % HIDDEN_BIT != 0
    }

    /// Converts to a 32-bit signed integer as a cast of the number does:
    /// toward zero, saturating at the ends of the range, with 0 for a NaN.
    pub fn to_i32(self) -> (r: i32)
        ensures
            r == self.truncated(),
    {
        let exponent: u32 = (self.bits / HIDDEN_BIT) % 0x100;
        let fraction: u32 = self.bits % HIDDEN_BIT;
        let negative = self.bits >= SIGN_BITS;
        if exponent == 255 && fraction != 0 {
            return 0;
        }
        if exponent < 127 {
            proof {
                lemma_below_one(self);
            }
            return 0;
        }
        if exponent >= 158 {
            proof {
                lemma_beyond_range(self);
            }
            return if negative {
                i32::MIN
            } else {
                i32::MAX
            };
        }
        let significand: u32 = fraction + HIDDEN_BIT;
        let magnitude: u32 = if exponent >= 150 {
            let factor = power_of_two(exponent - 150);
            proof {
                lemma2_to64();
                if exponent < 157 {
                    lemma_pow2_strictly_increases((exponent - 150) as nat, 7);
                }
                assert(significand * factor <= 0xFF_FFFF * 0x80) by (nonlinear_arith)
                    requires
                        significand <= 0xFF_FFFF,
                        factor <= 0x80,
                ;
            }
            significand * factor
        } else {
            let divisor = power_of_two(150 - exponent);
            significand / divisor
        };
        if negative {
            0 - (magnitude as i32)
        } else {
            magnitude as i32
        }
    }
}

/// `2^exponent`, for an exponent that leaves the result in 32 bits.
fn power_of_two(exponent: u32) -> (r: u32)
    requires
        exponent < 32,
    ensures
        r == pow2(exponent as nat),
        r > 0,
{
    let mut r: u32 = 1;
    let mut i: u32 = 0;
    proof {
        lemma2_to64();
    }
    while i < exponent
        invariant
            i <= exponent,
            exponent < 32,
            r == pow2(i as nat),
        decreases exponent - i,
    {
        proof {
            lemma_pow2_strictly_increases((i + 1) as nat, 32);
            vstd::arithmetic::power2::lemma_pow2_unfold((i + 1) as nat);
            lemma2_to64();
        }
        r = r * 2;
        i = i + 1;
    }
    proof {
        lemma_pow2_pos(exponent as nat);
    }
    r
}

/// A number with a biased exponent under 127 has magnitude under one.
proof fn lemma_below_one(s: Single)
    requires
        s.exponent() < 127,
    ensures
        s.whole() == 0,
{
    let shift = (150 - s.scale()) as nat;
    lemma2_to64();
    assert(s.significand() < 0x100_0000);
    assert(pow2(24) == 0x100_0000);
    if shift > 24 {
        lemma_pow2_strictly_increases(24, shift);
    }
    lemma_basic_div(s.significand(), pow2(shift) as int);
}

/// A number with a biased exponent of 158 or more has magnitude `2^31` or more.
proof fn lemma_beyond_range(s: Single)
    requires
        s.exponent() >= 158,
    ensures
        s.whole() >= 0x8000_0000,
{
    let shift = (s.scale() - 150) as nat;
    lemma2_to64();
    assert(pow2(8) == 0x100);
    if shift > 8 {
        lemma_pow2_strictly_increases(8, shift);
    }
    lemma_mul_inequality(0x100, pow2(shift) as int, s.significand());
    lemma_mul_inequality(0x80_0000, s.significand(), 0x100);
    assert(s.significand() * pow2(shift) == pow2(shift) * s.significand()) by (nonlinear_arith);
    assert(0x100 * s.significand() == s.significand() * 0x100) by (nonlinear_arith);
}

} // verus!
