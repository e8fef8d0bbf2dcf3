//! IEEE-754 single-precision scalars, carried by their 32-bit patterns.
//!
//! Verified code in this crate never holds a native floating-point value: a
//! scalar is its bit pattern, a `u32`. Arithmetic goes through a software
//! IEEE-754 implementation (`rustc_apfloat`, round to nearest, ties to even,
//! as for native `f32` arithmetic) behind trusted wrappers. Each wrapper names
//! its result with an uninterpreted function — the result is a pure function
//! of the operand bits — and states the few IEEE-754 facts about ones and
//! zeroes that the transform algebra's identity laws rest on.

use rustc_apfloat::ieee::Single;
use rustc_apfloat::Float;
use vstd::prelude::*;

verus! {

/// Bit pattern of +0.0.
pub const F32_ZERO: u32 = 0x0000_0000;

/// Bit pattern of -0.0.
pub const F32_NEG_ZERO: u32 = 0x8000_0000;

/// Bit pattern of 1.0.
pub const F32_ONE: u32 = 0x3f80_0000;

/// Bit pattern of 2.0.
pub const F32_TWO: u32 = 0x4000_0000;

/// Bit pattern of the closest single-precision value to pi.
pub const F32_PI: u32 = 0x4049_0fdb;

/// Bit pattern of 180.0.
pub const F32_180: u32 = 0x4334_0000;

/// The exponent field is not all ones: the value is zero, subnormal or
/// normal, neither an infinity nor a NaN.
pub open spec fn is_finite(x: u32) -> bool {
    (x >> 23) & 0xff != 0xff
}

/// The value is +0.0 or -0.0.
pub open spec fn is_zero_val(x: u32) -> bool {
    x & 0x7fff_ffff == 0
}

/// The value is a NaN: exponent all ones and a non-zero significand.
pub open spec fn is_nan(x: u32) -> bool {
    (x >> 23) & 0xff == 0xff && x & 0x7f_ffff != 0
}

/// The sign bit is set.
pub open spec fn sign_bit(x: u32) -> bool {
    x >> 31 == 1
}

/// IEEE-754 negation: the sign bit flips and nothing else changes.
pub open spec fn negated(x: u32) -> u32 {
    x ^ 0x8000_0000
}

/// How the named constants fall under the classification predicates.
pub(crate) proof fn lemma_const_classes()
    ensures
        is_finite(F32_ZERO),
        is_finite(F32_NEG_ZERO),
        is_finite(F32_ONE),
        is_finite(F32_TWO),
        is_finite(F32_PI),
        is_finite(F32_180),
        is_zero_val(F32_ZERO),
        is_zero_val(F32_NEG_ZERO),
        !is_zero_val(F32_ONE),
        !is_nan(F32_ZERO),
        !is_nan(F32_NEG_ZERO),
        !is_nan(F32_ONE),
        !sign_bit(F32_ZERO),
        sign_bit(F32_NEG_ZERO),
        !sign_bit(F32_ONE),
        negated(F32_ZERO) == F32_NEG_ZERO,
        negated(F32_NEG_ZERO) == F32_ZERO,
{
    assert((0x0000_0000u32 >> 23) & 0xff != 0xff && (0x8000_0000u32 >> 23) & 0xff != 0xff
        && (0x3f80_0000u32 >> 23) & 0xff != 0xff && (0x4000_0000u32 >> 23) & 0xff != 0xff
        && (0x4049_0fdbu32 >> 23) & 0xff != 0xff && (0x4334_0000u32 >> 23) & 0xff
        != 0xff) by (bit_vector);
    assert(0x0000_0000u32 & 0x7fff_ffff == 0 && 0x8000_0000u32 & 0x7fff_ffff == 0
        && 0x3f80_0000u32 & 0x7fff_ffff != 0) by (bit_vector);
    assert(0x0000_0000u32 >> 31 != 1 && 0x8000_0000u32 >> 31 == 1 && 0x3f80_0000u32 >> 31
        != 1) by (bit_vector);
    assert(0x0000_0000u32 ^ 0x8000_0000 == 0x8000_0000u32 && 0x8000_0000u32 ^ 0x8000_0000
        == 0x0000_0000u32) by (bit_vector);
}

/// What single-precision addition of the two operand bit patterns returns.
pub uninterp spec fn add_bits(a: u32, b: u32) -> u32;

/// What single-precision multiplication of the two operand bit patterns
/// returns.
pub uninterp spec fn mul_bits(a: u32, b: u32) -> u32;

/// What single-precision subtraction of the two operand bit patterns returns.
pub uninterp spec fn sub_bits(a: u32, b: u32) -> u32;

/// What single-precision division of the two operand bit patterns returns.
pub uninterp spec fn div_bits(a: u32, b: u32) -> u32;

/// The single-precision value closest to the given unsigned integer.
pub uninterp spec fn single_of_u32(x: u32) -> u32;

/// Relies on `rustc_apfloat::ieee::Single` addition (IEEE-754 binary32,
/// round to nearest, ties to even — the rounding native `f32` addition uses):
/// the sum is a pure function of the operand bits; adding a zero to a finite
/// non-zero value returns that value unchanged; the sum of two zeroes is
/// -0.0 exactly when both operands are -0.0, else +0.0.
#[verifier::external_body]
pub(crate) fn add_f32(a: u32, b: u32) -> (r: u32)
    ensures
        r == add_bits(a, b),
        is_finite(a) && !is_zero_val(a) && is_zero_val(b) ==> r == a,
        is_finite(b) && !is_zero_val(b) && is_zero_val(a) ==> r == b,
        is_zero_val(a) && is_zero_val(b) ==> r == (if a == F32_NEG_ZERO && b == F32_NEG_ZERO {
            F32_NEG_ZERO
        } else {
            F32_ZERO
        }),
{
    ((Single::from_bits(a as u128) + Single::from_bits(b as u128)).value.to_bits()) as u32
}

/// Relies on `rustc_apfloat::ieee::Single` multiplication: the product is a
/// pure function of the operand bits; multiplying a non-NaN value by 1.0
/// returns it unchanged (the exact product is representable); the product of
/// a zero and a finite value is the zero whose sign bit is the exclusive-or
/// of the operand sign bits.
#[verifier::external_body]
pub(crate) fn mul_f32(a: u32, b: u32) -> (r: u32)
    ensures
        r == mul_bits(a, b),
        a == F32_ONE && !is_nan(b) ==> r == b,
        b == F32_ONE && !is_nan(a) ==> r == a,
        is_zero_val(a) && is_finite(b) ==> r == (if sign_bit(a) != sign_bit(b) {
            F32_NEG_ZERO
        } else {
            F32_ZERO
        }),
        is_zero_val(b) && is_finite(a) ==> r == (if sign_bit(a) != sign_bit(b) {
            F32_NEG_ZERO
        } else {
            F32_ZERO
        }),
{
    ((Single::from_bits(a as u128) * Single::from_bits(b as u128)).value.to_bits()) as u32
}

/// Relies on `rustc_apfloat::ieee::Single` subtraction: the difference is a
/// pure function of the operand bits.
#[verifier::external_body]
pub(crate) fn sub_f32(a: u32, b: u32) -> (r: u32)
    ensures
        r == sub_bits(a, b),
{
    ((Single::from_bits(a as u128) - Single::from_bits(b as u128)).value.to_bits()) as u32
}

/// Relies on `rustc_apfloat::ieee::Single` division: the quotient is a pure
/// function of the operand bits.
#[verifier::external_body]
pub(crate) fn div_f32(a: u32, b: u32) -> (r: u32)
    ensures
        r == div_bits(a, b),
{
    ((Single::from_bits(a as u128) / Single::from_bits(b as u128)).value.to_bits()) as u32
}

/// Relies on `rustc_apfloat::Float::from_u128` for `Single`: the conversion
/// is a pure function of the integer.
#[verifier::external_body]
pub(crate) fn u32_to_f32(x: u32) -> (r: u32)
    ensures
        r == single_of_u32(x),
{
    (Single::from_u128(x as u128).value.to_bits()) as u32
}

/// Negate a single-precision value: flip the sign bit. IEEE-754 negation is
/// a sign-bit operation, so this needs no arithmetic.
pub fn neg_f32(x: u32) -> (r: u32)
    ensures
        r == negated(x),
{
    x ^ 0x8000_0000
}

} // verus!
