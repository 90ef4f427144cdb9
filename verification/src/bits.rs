//! A bit-level model of IEEE-754 binary32 values.
//!
//! Every component of a [`crate::Vec3`](crate::Vec3) is stored as the raw bit
//! pattern of a binary32 number: one sign bit, an eight-bit exponent and a
//! twenty-three-bit fraction.  The predicates here classify such a pattern
//! (zero, infinity, NaN, finite) exactly as the format defines them, so the
//! library's contracts can speak about floating-point values without ever
//! leaving the integers.

use vstd::prelude::*;

verus! {

/// Mask of the sign bit.
pub const SIGN_MASK: u32 = 0x8000_0000;
/// Mask of every bit but the sign: the magnitude of the value.
pub const ABS_MASK: u32 = 0x7fff_ffff;
/// Mask of the exponent field.
pub const EXP_MASK: u32 = 0x7f80_0000;
/// Mask of the fraction field.
pub const FRAC_MASK: u32 = 0x007f_ffff;

/// Bit pattern of `+0.0`.
pub const POS_ZERO: u32 = 0x0000_0000;
/// Bit pattern of `-0.0`.
pub const NEG_ZERO: u32 = 0x8000_0000;
/// Bit pattern of `1.0`.
pub const ONE_BITS: u32 = 0x3f80_0000;
/// Bit pattern of `-1.0`.
pub const NEG_ONE_BITS: u32 = 0xbf80_0000;
/// Bit pattern of `+infinity`.
pub const POS_INF: u32 = 0x7f80_0000;
/// Bit pattern of the canonical quiet NaN.
pub const QNAN: u32 = 0x7fc0_0000;

/// The sign bit is set: the value is negative (or a NaN with a set sign bit).
pub open spec fn sign_bit(b: u32) -> bool {
    (b & SIGN_MASK) == SIGN_MASK
}

/// The pattern is a NaN: exponent all ones and a nonzero fraction.
pub open spec fn is_nan(b: u32) -> bool {
    (b & EXP_MASK) == EXP_MASK && (b & FRAC_MASK) != 0
}

/// The pattern is one of the two infinities.
pub open spec fn is_inf(b: u32) -> bool {
    (b & ABS_MASK) == POS_INF
}

/// The pattern is one of the two zeros.
pub open spec fn is_zero(b: u32) -> bool {
    (b & ABS_MASK) == 0
}

/// The pattern is a finite number (zero, subnormal or normal).
pub open spec fn is_finite(b: u32) -> bool {
    (b & EXP_MASK) != EXP_MASK
}

/// The pattern with its arithmetic sign inverted; NaN stays NaN.
pub open spec fn flip_sign(b: u32) -> u32 {
    b ^ SIGN_MASK
}

/// The pattern is a finite, strictly positive number.
pub open spec fn is_pos_finite(b: u32) -> bool {
    !sign_bit(b) && is_finite(b) && !is_zero(b)
}

/// The two patterns compare equal as floating-point values: neither is a NaN
/// and they denote the same number (so `+0.0` equals `-0.0`).  Apart from the
/// two zeros, equal binary32 values have equal bit patterns.
pub open spec fn val_eq(a: u32, b: u32) -> bool {
    !is_nan(a) && !is_nan(b) && (a == b || (is_zero(a) && is_zero(b)))
}

/// The two patterns are equal as floating-point values, or both are NaN.
pub open spec fn same_value_or_nan(a: u32, b: u32) -> bool {
    val_eq(a, b) || (is_nan(a) && is_nan(b))
}

/// How the classification predicates relate on an arbitrary pattern, and how
/// each of them behaves under a sign flip.
pub proof fn lemma_bit_facts(b: u32)
    by (bit_vector)
    ensures
        flip_sign(flip_sign(b)) == b,
        is_nan(flip_sign(b)) == is_nan(b),
        is_zero(flip_sign(b)) == is_zero(b),
        is_inf(flip_sign(b)) == is_inf(b),
        is_finite(flip_sign(b)) == is_finite(b),
        sign_bit(flip_sign(b)) == !sign_bit(b),
        is_zero(b) ==> is_finite(b) && !is_nan(b) && !is_inf(b),
        is_nan(b) ==> !is_inf(b) && !is_zero(b) && !is_finite(b),
        is_inf(b) ==> !is_finite(b) && !is_zero(b) && !is_nan(b),
        is_inf(b) && !sign_bit(b) ==> b == POS_INF,
        is_zero(b) && !sign_bit(b) ==> b == POS_ZERO,
        is_zero(b) && sign_bit(b) ==> b == NEG_ZERO,
{
}

/// How the classification predicates evaluate on the named constants.
pub proof fn lemma_constant_facts()
    by (bit_vector)
    ensures
        is_zero(POS_ZERO) && is_finite(POS_ZERO) && !is_inf(POS_ZERO) && !is_nan(POS_ZERO),
        !sign_bit(POS_ZERO) && !is_pos_finite(POS_ZERO),
        is_zero(NEG_ZERO) && is_finite(NEG_ZERO) && !is_inf(NEG_ZERO) && !is_nan(NEG_ZERO),
        sign_bit(NEG_ZERO) && !is_pos_finite(NEG_ZERO),
        is_finite(ONE_BITS) && !is_zero(ONE_BITS) && !is_inf(ONE_BITS) && !is_nan(ONE_BITS),
        !sign_bit(ONE_BITS) && is_pos_finite(ONE_BITS),
        is_finite(NEG_ONE_BITS) && !is_zero(NEG_ONE_BITS) && !is_inf(NEG_ONE_BITS),
        !is_nan(NEG_ONE_BITS) && sign_bit(NEG_ONE_BITS),
        is_inf(POS_INF) && !is_finite(POS_INF) && !is_zero(POS_INF) && !is_nan(POS_INF),
        !sign_bit(POS_INF) && !is_pos_finite(POS_INF),
        is_nan(QNAN) && !is_inf(QNAN) && !is_zero(QNAN) && !is_finite(QNAN),
        !is_pos_finite(QNAN),
        val_eq(POS_ZERO, NEG_ZERO),
{
}

/// Whether the pattern denotes a finite, strictly positive number; the
/// run-time form of [`is_pos_finite`].
pub fn positive_and_finite(b: u32) -> (r: bool)
    ensures
        r == is_pos_finite(b),
{
    (b & SIGN_MASK) != SIGN_MASK && (b & EXP_MASK) != EXP_MASK && (b & ABS_MASK) != 0
}

} // verus!
