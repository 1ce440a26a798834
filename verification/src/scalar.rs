//! Real-valued quantities, carried through the engine by their encoding.

use vstd::arithmetic::div_mod::{lemma_basic_div, lemma_fundamental_div_mod};
use vstd::arithmetic::power2::{
    lemma2_to64,
    lemma2_to64_rest,
    lemma_pow2_pos,
    lemma_pow2_strictly_increases,
    lemma_pow2_unfold,
    pow2,
};
use vstd::bits::{lemma_u64_pow2_no_overflow, lemma_u64_shl_is_mul, lemma_u64_shr_is_div};
use vstd::prelude::*;

verus! {

/// The bit that carries the sign of a binary64 value.
pub const SIGN_BIT: u64 = 0x8000_0000_0000_0000;

/// The number of values that the fraction field of a binary64 value takes:
/// two to the power of its 52 bits.
pub const FRACTION_SPAN: u64 = 0x10_0000_0000_0000;

/// The number of values that the exponent field of a binary64 value takes:
/// two to the power of its 11 bits.
pub const EXPONENT_SPAN: u64 = 0x800;

/// The exponent field of the infinities and of the values that are no
/// number.
pub const EXPONENT_SPECIAL: u64 = 0x7ff;

/// The power of two that a significand is divided by where the exponent
/// field is zero: a finite value is its significand times two to the power
/// of its scale less this.
pub const SCALE_OFFSET: u64 = 1075;

/// A real-valued quantity, held as the bit pattern of its IEEE 754 binary64
/// encoding. The engine stores and forwards such values unchanged; it only
/// ever asks whether one of them is zero, and which whole number of pixels
/// is nearest to one.
#[derive(Clone, Copy, Debug)]
pub struct Scalar {
    pub bits: u64,
}

impl Scalar {
    /// Whether the encoded value is zero: every bit but the sign is clear.
    pub open spec fn spec_is_zero(self) -> bool {
        self.bits == 0 || self.bits == SIGN_BIT
    }

    /// Whether the sign bit is set.
    pub open spec fn sign_bit(self) -> bool {
        self.bits >= SIGN_BIT
    }

    /// The exponent field.
    pub open spec fn exponent(self) -> nat {
        ((self.bits / FRACTION_SPAN) % EXPONENT_SPAN) as nat
    }

    /// The fraction field.
    pub open spec fn fraction(self) -> nat {
        (self.bits % FRACTION_SPAN) as nat
    }

    /// Whether the encoding is of no number.
    pub open spec fn spec_is_nan(self) -> bool {
        self.exponent() == EXPONENT_SPECIAL && self.fraction() != 0
    }

    /// The significand of a finite value: the fraction, with the leading
    /// bit that every exponent field but zero implies.
    pub open spec fn significand(self) -> nat {
        if self.exponent() == 0 {
            self.fraction()
        } else {
            (FRACTION_SPAN + self.fraction()) as nat
        }
    }

    /// The scale of a finite value, whose magnitude is its significand
    /// times two to the power of `scale - SCALE_OFFSET`.
    pub open spec fn scale(self) -> nat {
        if self.exponent() == 0 {
            1nat
        } else {
            self.exponent()
        }
    }

    /// The whole number nearest to the magnitude of a finite value, the
    /// greater one where two are equally near.
    pub open spec fn nearest_integer(self) -> nat {
        if self.scale() >= SCALE_OFFSET {
            self.significand() * pow2((self.scale() - SCALE_OFFSET) as nat)
        } else {
            (self.significand() + pow2((SCALE_OFFSET - 1 - self.scale()) as nat)) / pow2(
                (SCALE_OFFSET - self.scale()) as nat,
            )
        }
    }

    /// The value rounded to a whole number of pixels: the nearest whole
    /// number, halves rounded away from zero, brought into the range of
    /// `u32`. What is negative, or no number, counts as zero.
    pub open spec fn spec_round_to_u32(self) -> u32 {
        if self.sign_bit() || self.spec_is_nan() {
            0
        } else if self.exponent() == EXPONENT_SPECIAL || self.nearest_integer() > u32::MAX {
            u32::MAX
        } else {
            self.nearest_integer() as u32
        }
    }

    /// Wraps an encoding.
    pub fn from_bits(bits: u64) -> (s: Scalar)
        ensures
            s.bits == bits,
    {
        Scalar { bits }
    }

    /// The encoding.
    pub fn to_bits(self) -> (bits: u64)
        ensures
            bits == self.bits,
    {
        self.bits
    }

    /// Whether the encoded value is positive or negative zero.
    #[verifier::when_used_as_spec(spec_is_zero)]
    pub fn is_zero(self) -> (z: bool)
        ensures
            z == self.spec_is_zero(),
    {
        let bits: u64 = self.bits;
        assert((bits & 0x7fff_ffff_ffff_ffff == 0) <==> (bits == 0 || bits
            == 0x8000_0000_0000_0000)) by (bit_vector);
        bits & 0x7fff_ffff_ffff_ffff == 0
    }

    /// The value rounded to a whole number of pixels, as rounding a
    /// binary64 value and converting it to `u32` gives it.
    #[verifier::when_used_as_spec(spec_round_to_u32)]
    pub fn round_to_u32(self) -> (pixels: u32)
        ensures
            pixels == self.spec_round_to_u32(),
    {
        let bits: u64 = self.bits;
        if bits >= SIGN_BIT {
            return 0;
        }
        let exponent: u64 = (bits / FRACTION_SPAN) % EXPONENT_SPAN;
        let fraction: u64 = bits % FRACTION_SPAN;
        if exponent == EXPONENT_SPECIAL {
            return if fraction != 0 {
                0
            } else {
                u32::MAX
            };
        }
        if exponent < 1022 {
            proof {
                lemma_below_half_rounds_to_zero(self);
            }
            return 0;
        }
        if exponent >= 1055 {
            proof {
                lemma_beyond_range_saturates(self);
            }
            return u32::MAX;
        }
        let significand: u64 = FRACTION_SPAN + fraction;
        let shift: u64 = SCALE_OFFSET - exponent;
        proof {
            let below: u64 = (shift - 1) as u64;
            lemma2_to64_rest();
            lemma_u64_pow2_no_overflow(below as nat);
            lemma_u64_shl_is_mul(1, below);
            if below < 52 {
                lemma_pow2_strictly_increases(below as nat, 52);
            }
            assert(pow2(below as nat) <= FRACTION_SPAN);
        }
        let half: u64 = 1u64 << (shift - 1);
        let rounded: u64 = (significand + half) >> shift;
        proof {
            lemma_u64_shr_is_div((significand + half) as u64, shift);
            assert(rounded == self.nearest_integer());
        }
        if rounded > 0xffff_ffff {
            u32::MAX
        } else {
            rounded as u32
        }
    }
}

/// A finite value below one half, subnormal ones among them, has zero as its
/// nearest whole number.
proof fn lemma_below_half_rounds_to_zero(s: Scalar)
    requires
        s.exponent() < 1022,
    ensures
        s.nearest_integer() == 0,
{
    let shift = (SCALE_OFFSET - s.scale()) as nat;
    let below = (shift - 1) as nat;
    lemma2_to64_rest();
    if below > 53 {
        lemma_pow2_strictly_increases(53, below);
    }
    lemma_pow2_unfold(shift);
    assert(s.significand() < pow2(below));
    lemma_basic_div((s.significand() + pow2(below)) as int, pow2(shift) as int);
}

/// A finite value of two to the power of 32 or more has a nearest whole
/// number beyond the range of `u32`.
proof fn lemma_beyond_range_saturates(s: Scalar)
    requires
        1055 <= s.exponent() < EXPONENT_SPECIAL,
    ensures
        s.nearest_integer() > u32::MAX,
{
    lemma2_to64();
    lemma2_to64_rest();
    let significand = s.significand() as int;
    if s.scale() >= SCALE_OFFSET {
        let factor = pow2((s.scale() - SCALE_OFFSET) as nat) as int;
        lemma_pow2_pos((s.scale() - SCALE_OFFSET) as nat);
        assert(significand * factor >= significand) by (nonlinear_arith)
            requires
                factor >= 1,
                significand >= 0,
        ;
    } else {
        let shift = (SCALE_OFFSET - s.scale()) as nat;
        let below = (shift - 1) as nat;
        if shift < 20 {
            lemma_pow2_strictly_increases(shift, 20);
        }
        lemma_pow2_pos(shift);
        lemma_pow2_pos(below);
        let divisor = pow2(shift) as int;
        let dividend = significand + pow2(below);
        assert(dividend / divisor >= 0x1_0000_0000) by (nonlinear_arith)
            requires
                dividend >= 0x1_0000_0000 * divisor,
                divisor > 0,
        ;
    }
}

/// The nearest whole number of a finite value with a fractional part lies
/// within one half of its magnitude: with `r` the number, `m` the
/// significand and `d` the power of two that divides it, `r - 1/2 <= m / d <
/// r + 1/2`, here stated free of division, doubled.
pub proof fn lemma_nearest_integer_is_nearest(s: Scalar)
    requires
        s.scale() < SCALE_OFFSET,
    ensures
        (2 * s.nearest_integer() - 1) * pow2((SCALE_OFFSET - s.scale()) as nat) <= 2
            * s.significand(),
        2 * s.significand() < (2 * s.nearest_integer() + 1) * pow2(
            (SCALE_OFFSET - s.scale()) as nat,
        ),
{
    let shift = (SCALE_OFFSET - s.scale()) as nat;
    let half = pow2((shift - 1) as nat) as int;
    let whole = pow2(shift) as int;
    let significand = s.significand() as int;
    let nearest = s.nearest_integer() as int;
    lemma_pow2_unfold(shift);
    lemma_pow2_pos((shift - 1) as nat);
    lemma_fundamental_div_mod(significand + half, whole);
    let rest = (significand + half) % whole;
    assert(0 <= rest < whole);
    assert(significand + half == whole * nearest + rest);
    assert((2 * nearest - 1) * whole == 2 * (whole * nearest) - whole) by (nonlinear_arith);
    assert((2 * nearest + 1) * whole == 2 * (whole * nearest) + whole) by (nonlinear_arith);
}

} // verus!
