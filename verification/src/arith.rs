//! Scalar binary32 arithmetic, performed in software.
//!
//! Each operation takes and returns raw bit patterns.  The four basic
//! operations are carried out by `rustc_apfloat`'s `Single` type and the
//! square root by `ieee_apsqrt::sqrt_accurate`, both software
//! implementations of IEEE-754 binary32 arithmetic rounding to nearest, ties
//! to even.  Both are deterministic: the result is a function of the operand
//! bits alone, which lets each operation's result be named by an
//! uninterpreted spec function.  The conditions under which an operation
//! yields a NaN are fixed by the format and are stated here exactly; the bit
//! pattern of a NaN result may depend on the order of NaN operands, so
//! order-independence is only stated where no NaN arises.

use vstd::prelude::*;

use crate::bits::{
    flip_sign, is_inf, is_nan, is_zero, same_value_or_nan, sign_bit, ONE_BITS, POS_INF, POS_ZERO,
};
use rustc_apfloat::ieee::Single;
use rustc_apfloat::{Float, Round};

verus! {

/// The bits of the binary32 sum of the two operands.
pub uninterp spec fn add_bits(a: u32, b: u32) -> u32;

/// The bits of the binary32 difference of the two operands.
pub uninterp spec fn sub_bits(a: u32, b: u32) -> u32;

/// The bits of the binary32 product of the two operands.
pub uninterp spec fn mul_bits(a: u32, b: u32) -> u32;

/// The bits of the binary32 quotient of the two operands.
pub uninterp spec fn div_bits(a: u32, b: u32) -> u32;

/// The bits of the binary32 square root of the operand.
pub uninterp spec fn sqrt_bits(a: u32) -> u32;

/// Addition yields a NaN exactly for a NaN operand or for infinities of
/// opposite sign.
pub open spec fn add_gives_nan(a: u32, b: u32) -> bool {
    is_nan(a) || is_nan(b) || (is_inf(a) && is_inf(b) && sign_bit(a) != sign_bit(b))
}

/// Subtraction yields a NaN exactly for a NaN operand or for infinities of
/// the same sign.
pub open spec fn sub_gives_nan(a: u32, b: u32) -> bool {
    is_nan(a) || is_nan(b) || (is_inf(a) && is_inf(b) && sign_bit(a) == sign_bit(b))
}

/// Multiplication yields a NaN exactly for a NaN operand or for zero times
/// infinity.
pub open spec fn mul_gives_nan(a: u32, b: u32) -> bool {
    is_nan(a) || is_nan(b) || (is_zero(a) && is_inf(b)) || (is_inf(a) && is_zero(b))
}

/// Division yields a NaN exactly for a NaN operand, zero over zero, or
/// infinity over infinity.
pub open spec fn div_gives_nan(a: u32, b: u32) -> bool {
    is_nan(a) || is_nan(b) || (is_zero(a) && is_zero(b)) || (is_inf(a) && is_inf(b))
}

/// The square root yields a NaN exactly for a NaN operand or a negative
/// nonzero operand; the root of a zero is that zero.
pub open spec fn sqrt_gives_nan(a: u32) -> bool {
    is_nan(a) || (sign_bit(a) && !is_zero(a))
}

/// Relies on `rustc_apfloat::ieee::Single::add_r` (round to nearest, ties to
/// even): the sum is a function of the operand bits alone; it is a NaN
/// exactly when a NaN operand or opposite infinities meet; when no NaN
/// arises it does not depend on the order of the operands (an exact zero sum
/// is `+0.0` either way); and adding `+0.0` to a number returns that number,
/// with `-0.0 + +0.0 == +0.0`.
#[verifier::external_body]
pub(crate) fn f32_add(a: u32, b: u32) -> (r: u32)
    ensures
        r == add_bits(a, b),
        !add_gives_nan(a, b) ==> r == add_bits(b, a),
        is_nan(r) == add_gives_nan(a, b),
        !is_nan(a) && b == POS_ZERO ==> r == (if is_zero(a) {
            POS_ZERO
        } else {
            a
        }),
{
    let x = Single::from_bits(a as u128);
    let y = Single::from_bits(b as u128);
    x.add_r(y, Round::NearestTiesToEven).value.to_bits() as u32
}

/// Relies on `rustc_apfloat::ieee::Single::sub_r` (round to nearest, ties to
/// even): the difference is a function of the operand bits alone; it is a
/// NaN exactly when a NaN operand or like-signed infinities meet, and then
/// the swapped difference is a NaN as well; otherwise swapping the operands
/// negates the value (an exact zero difference is `+0.0` either way, which
/// still negates to an equal value).
#[verifier::external_body]
pub(crate) fn f32_sub(a: u32, b: u32) -> (r: u32)
    ensures
        r == sub_bits(a, b),
        is_nan(r) == sub_gives_nan(a, b),
        same_value_or_nan(r, flip_sign(sub_bits(b, a))),
{
    let x = Single::from_bits(a as u128);
    let y = Single::from_bits(b as u128);
    x.sub_r(y, Round::NearestTiesToEven).value.to_bits() as u32
}

/// Relies on `rustc_apfloat::ieee::Single::mul_r` (round to nearest, ties to
/// even): the product is a function of the operand bits alone; it is a NaN
/// exactly when a NaN operand or zero-times-infinity meets; when no NaN
/// arises it does not depend on the order of the operands; multiplying a
/// number by `1.0` returns that number; a product with a zero operand is a
/// zero; and the sign of a product that is not NaN is the exclusive or of
/// the operands' signs.
#[verifier::external_body]
pub(crate) fn f32_mul(a: u32, b: u32) -> (r: u32)
    ensures
        r == mul_bits(a, b),
        !mul_gives_nan(a, b) ==> r == mul_bits(b, a),
        is_nan(r) == mul_gives_nan(a, b),
        !is_nan(a) && b == ONE_BITS ==> r == a,
        (is_zero(a) || is_zero(b)) && !mul_gives_nan(a, b) ==> is_zero(r),
        !is_nan(r) ==> sign_bit(r) == (sign_bit(a) != sign_bit(b)),
{
    let x = Single::from_bits(a as u128);
    let y = Single::from_bits(b as u128);
    x.mul_r(y, Round::NearestTiesToEven).value.to_bits() as u32
}

/// Relies on `rustc_apfloat::ieee::Single::div_r` (round to nearest, ties to
/// even): the quotient is a function of the operand bits alone; it is a NaN
/// exactly when a NaN operand, zero over zero, or infinity over infinity
/// meets; a nonzero number divided by a zero is an infinity; and the sign of
/// a quotient that is not NaN is the exclusive or of the operands' signs.
#[verifier::external_body]
pub(crate) fn f32_div(a: u32, b: u32) -> (r: u32)
    ensures
        r == div_bits(a, b),
        is_nan(r) == div_gives_nan(a, b),
        !is_nan(a) && !is_zero(a) && is_zero(b) ==> is_inf(r),
        !is_nan(r) ==> sign_bit(r) == (sign_bit(a) != sign_bit(b)),
{
    let x = Single::from_bits(a as u128);
    let y = Single::from_bits(b as u128);
    x.div_r(y, Round::NearestTiesToEven).value.to_bits() as u32
}

/// Relies on `ieee_apsqrt::sqrt_accurate` (round to nearest, ties to even):
/// the root is a function of the operand bits alone; it is the canonical
/// quiet NaN exactly for a NaN operand or a negative nonzero operand; the
/// root of a zero is that zero; and the root of `+infinity` is `+infinity`.
#[verifier::external_body]
pub(crate) fn f32_sqrt(a: u32) -> (r: u32)
    ensures
        r == sqrt_bits(a),
        is_nan(r) == sqrt_gives_nan(a),
        is_zero(a) ==> r == a,
        a == POS_INF ==> r == POS_INF,
{
    ieee_apsqrt::sqrt_accurate(a, Round::NearestTiesToEven).0.value
}

} // verus!
