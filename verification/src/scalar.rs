//! IEEE 754 binary32 scalars, carried as their bit patterns.
//!
//! A scalar is a `u32` holding the bits of a binary32 value: 1 sign bit, 8
//! exponent bits, 23 significand bits. The rounding arithmetic (add, subtract,
//! multiply, divide, square root) is done by an outside softfloat library and
//! named here by uninterpreted spec functions: each operation is a pure
//! function of its operand bits, the same on every machine. Negation and
//! equality, whose bit-level meaning the IEEE 754 standard spells out in a few
//! lines, are implemented and verified here directly.

use vstd::prelude::*;

use rustc_apfloat::Float;
use rustc_apfloat::Round;
use rustc_apfloat::ieee::Single;

verus! {

/// The bit pattern of positive zero.
pub const F_ZERO: u32 = 0x0000_0000;

/// The bit pattern of 1.0.
pub const F_ONE: u32 = 0x3F80_0000;

/// The bit pattern of 2.0.
pub const F_TWO: u32 = 0x4000_0000;

/// The mask of the sign bit.
pub const SIGN_MASK: u32 = 0x8000_0000;

/// The bits of the rounded binary32 sum of the two operands.
pub uninterp spec fn add_bits(a: u32, b: u32) -> u32;

/// The bits of the rounded binary32 difference of the two operands.
pub uninterp spec fn sub_bits(a: u32, b: u32) -> u32;

/// The bits of the rounded binary32 product of the two operands.
pub uninterp spec fn mul_bits(a: u32, b: u32) -> u32;

/// The bits of the rounded binary32 quotient of the two operands.
pub uninterp spec fn div_bits(a: u32, b: u32) -> u32;

/// The bits of the rounded binary32 square root of the operand.
pub uninterp spec fn sqrt_bits(a: u32) -> u32;

/// The bits of the binary32 value a decimal literal denotes, or `None` when
/// the text is not a well-formed number.
pub uninterp spec fn parse_bits(s: Seq<u8>) -> Option<u32>;

/// Whether the bits encode a NaN: exponent all ones, significand nonzero.
pub open spec fn is_nan_bits(a: u32) -> bool {
    a & 0x7F80_0000 == 0x7F80_0000 && a & 0x007F_FFFF != 0
}

/// Whether the bits encode a zero of either sign.
pub open spec fn is_zero_bits(a: u32) -> bool {
    a & 0x7FFF_FFFF == 0
}

/// IEEE 754 equality on binary32 bits: NaN equals nothing, the two zeros are
/// equal, and any other pair of values is equal exactly when the bits are.
pub open spec fn eq_bits(a: u32, b: u32) -> bool {
    &&& !is_nan_bits(a)
    &&& !is_nan_bits(b)
    &&& (a == b || (is_zero_bits(a) && is_zero_bits(b)))
}

/// The bits of the negated value: the sign bit flipped.
pub open spec fn neg_bits(a: u32) -> u32 {
    a ^ SIGN_MASK
}

/// Rounded binary32 addition.
///
/// Relies on `rustc_apfloat::Float::add_r` on `ieee::Single` with
/// round-to-nearest-even: IEEE 754 binary32 addition on the operand bits.
#[verifier::external_body]
pub(crate) fn add32(a: u32, b: u32) -> (r: u32)
    ensures
        r == add_bits(a, b),
{
    let r = Single::from_bits(a as u128).add_r(Single::from_bits(b as u128), Round::NearestTiesToEven);
    r.value.to_bits() as u32
}

/// Rounded binary32 subtraction.
///
/// Relies on `rustc_apfloat::Float::sub_r` on `ieee::Single` with
/// round-to-nearest-even: IEEE 754 binary32 subtraction on the operand bits.
#[verifier::external_body]
pub(crate) fn sub32(a: u32, b: u32) -> (r: u32)
    ensures
        r == sub_bits(a, b),
{
    let r = Single::from_bits(a as u128).sub_r(Single::from_bits(b as u128), Round::NearestTiesToEven);
    r.value.to_bits() as u32
}

/// Rounded binary32 multiplication.
///
/// Relies on `rustc_apfloat::Float::mul_r` on `ieee::Single` with
/// round-to-nearest-even: IEEE 754 binary32 multiplication on the operand bits.
#[verifier::external_body]
pub(crate) fn mul32(a: u32, b: u32) -> (r: u32)
    ensures
        r == mul_bits(a, b),
{
    let r = Single::from_bits(a as u128).mul_r(Single::from_bits(b as u128), Round::NearestTiesToEven);
    r.value.to_bits() as u32
}

/// Rounded binary32 division. Division by zero yields an infinity or NaN per
/// IEEE 754; it does not fail.
///
/// Relies on `rustc_apfloat::Float::div_r` on `ieee::Single` with
/// round-to-nearest-even: IEEE 754 binary32 division on the operand bits.
#[verifier::external_body]
pub(crate) fn div32(a: u32, b: u32) -> (r: u32)
    ensures
        r == div_bits(a, b),
{
    let r = Single::from_bits(a as u128).div_r(Single::from_bits(b as u128), Round::NearestTiesToEven);
    r.value.to_bits() as u32
}

/// Rounded binary32 square root. A negative operand yields NaN and a zero or
/// an infinity returns itself, per IEEE 754; the operation never fails.
///
/// Relies on `ieee_apsqrt::sqrt_accurate` with round-to-nearest-even, the
/// binary32 square root computed on the operand bits through
/// `rustc_apfloat` in widened precision.
#[verifier::external_body]
pub(crate) fn sqrt32(a: u32) -> (r: u32)
    ensures
        r == sqrt_bits(a),
{
    ieee_apsqrt::sqrt_accurate(a, Round::NearestTiesToEven).0.value
}

/// Parses a decimal literal into binary32 bits, with IEEE 754
/// correct rounding; `None` when the text is not a number.
///
/// Relies on `rustc_apfloat::ieee::Single::from_str`, the correctly rounded
/// decimal-to-binary32 conversion, and `Single::to_bits`.
#[verifier::external_body]
pub(crate) fn parse32(s: &[u8]) -> (r: Option<u32>)
    ensures
        r == parse_bits(s@),
{
    let text = match core::str::from_utf8(s) {
        Ok(t) => t,
        Err(_) => return None,
    };
    match text.parse::<rustc_apfloat::ieee::Single>() {
        Ok(v) => Some(v.to_bits() as u32),
        Err(_) => None,
    }
}

/// Binary32 negation: the sign bit flipped, every other bit kept, as IEEE 754
/// defines the negate operation.
pub(crate) fn neg32(a: u32) -> (r: u32)
    ensures
        r == neg_bits(a),
{
    a ^ SIGN_MASK
}

/// IEEE 754 equality on binary32 bits: false on any NaN operand, true on the
/// two zeros, bit equality otherwise.
pub(crate) fn eq32(a: u32, b: u32) -> (r: bool)
    ensures
        r == eq_bits(a, b),
{
    let a_nan = a & 0x7F80_0000 == 0x7F80_0000 && a & 0x007F_FFFF != 0;
    let b_nan = b & 0x7F80_0000 == 0x7F80_0000 && b & 0x007F_FFFF != 0;
    !a_nan && !b_nan && (a == b || (a & 0x7FFF_FFFF == 0 && b & 0x7FFF_FFFF == 0))
}

/// Negation undoes itself bit for bit: flipping the sign twice returns the
/// original scalar, NaN or not.
pub proof fn lemma_neg_neg(a: u32)
    ensures
        neg_bits(neg_bits(a)) == a,
{
    assert((a ^ 0x8000_0000) ^ 0x8000_0000 == a) by (bit_vector);
}

} // verus!
