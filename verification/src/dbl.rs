//! IEEE-754 double-precision values handled as `u64` bit patterns.
//!
//! The library never holds a native floating-point value: every physical
//! quantity travels as its IEEE-754 binary64 bit pattern.  Arithmetic on
//! the patterns is performed by the `rustc_apfloat` software
//! floating-point crate behind the trusted wrappers below; each wrapper
//! names its result with an uninterpreted spec function, so contracts can
//! speak about the arithmetic exactly.  Comparisons, NaN tests and
//! min/max, on the other hand, are plain integer logic on the sign and
//! magnitude fields and are implemented and verified here directly.

use vstd::prelude::*;

use rustc_apfloat::Float;
use rustc_apfloat::FloatConvert;

verus! {

/// IEEE-754 binary64 bit pattern of 1.0.
pub const DBL_ONE: u64 = 0x3FF0_0000_0000_0000;

/// Mask of everything but the sign bit.
pub const DBL_MAG_MASK: u64 = 0x7FFF_FFFF_FFFF_FFFF;

/// Magnitude of positive infinity; greater magnitudes are NaN.
pub const DBL_INF_MAG: u64 = 0x7FF0_0000_0000_0000;

/// Names the IEEE-754 binary64 sum of two values given as bit patterns.
pub uninterp spec fn dbl_add(a: u64, b: u64) -> u64;

/// Names the IEEE-754 binary64 difference of two values.
pub uninterp spec fn dbl_sub(a: u64, b: u64) -> u64;

/// Names the IEEE-754 binary64 product of two values.
pub uninterp spec fn dbl_mul(a: u64, b: u64) -> u64;

/// Names the IEEE-754 binary64 quotient of two values.
pub uninterp spec fn dbl_div(a: u64, b: u64) -> u64;

/// Names the binary64 value of a decimal text, `None` where the text does
/// not parse as a number.
pub uninterp spec fn dbl_parse(s: Seq<u8>) -> Option<u64>;

/// Names the binary32 bit pattern nearest to a given binary64 value.
pub uninterp spec fn sgl_of_dbl(a: u64) -> u32;

/// Names the binary64 bit pattern of an unsigned 32-bit integer; every
/// such integer is exactly representable.
pub uninterp spec fn dbl_of_u32(x: u32) -> u64;

/// Relies on `rustc_apfloat::ieee::Double` addition (round to nearest,
/// ties to even); the result is a function of the operand patterns alone.
#[verifier::external_body]
pub fn add_bits(a: u64, b: u64) -> (r: u64)
    ensures
        r == dbl_add(a, b),
{
    let x = rustc_apfloat::ieee::Double::from_bits(a as u128);
    let y = rustc_apfloat::ieee::Double::from_bits(b as u128);
    (x + y).value.to_bits() as u64
}

/// Relies on `rustc_apfloat::ieee::Double` subtraction (round to nearest,
/// ties to even); the result is a function of the operand patterns alone.
#[verifier::external_body]
pub fn sub_bits(a: u64, b: u64) -> (r: u64)
    ensures
        r == dbl_sub(a, b),
{
    let x = rustc_apfloat::ieee::Double::from_bits(a as u128);
    let y = rustc_apfloat::ieee::Double::from_bits(b as u128);
    (x - y).value.to_bits() as u64
}

/// Relies on `rustc_apfloat::ieee::Double` multiplication (round to
/// nearest, ties to even); the result is a function of the operands alone.
#[verifier::external_body]
pub fn mul_bits(a: u64, b: u64) -> (r: u64)
    ensures
        r == dbl_mul(a, b),
{
    let x = rustc_apfloat::ieee::Double::from_bits(a as u128);
    let y = rustc_apfloat::ieee::Double::from_bits(b as u128);
    (x * y).value.to_bits() as u64
}

/// Relies on `rustc_apfloat::ieee::Double` division (round to nearest,
/// ties to even); the result is a function of the operand patterns alone.
#[verifier::external_body]
pub fn div_bits(a: u64, b: u64) -> (r: u64)
    ensures
        r == dbl_div(a, b),
{
    let x = rustc_apfloat::ieee::Double::from_bits(a as u128);
    let y = rustc_apfloat::ieee::Double::from_bits(b as u128);
    (x / y).value.to_bits() as u64
}

/// Relies on `rustc_apfloat::ieee::Double::from_str` (correctly rounded,
/// `Err` on text that is not a number; `core::str::from_utf8` only views
/// the bytes as text).  The result is a function of the bytes alone.
#[verifier::external_body]
pub fn parse_bits(s: &[u8]) -> (r: Option<u64>)
    ensures
        r == dbl_parse(s@),
{
    match core::str::from_utf8(s) {
        Ok(t) => match t.parse::<rustc_apfloat::ieee::Double>() {
            Ok(v) => Some(v.to_bits() as u64),
            Err(_) => None,
        },
        Err(_) => None,
    }
}

/// Relies on `rustc_apfloat`'s `Double` to `Single` conversion (round to
/// nearest, ties to even); the result is a function of the pattern alone.
#[verifier::external_body]
pub fn narrow_bits(a: u64) -> (r: u32)
    ensures
        r == sgl_of_dbl(a),
{
    let x = rustc_apfloat::ieee::Double::from_bits(a as u128);
    let mut loses_info = false;
    let s: rustc_apfloat::ieee::Single = x.convert(&mut loses_info).value;
    s.to_bits() as u32
}

/// Relies on `rustc_apfloat::ieee::Double::from_u128` (exact for every
/// 32-bit integer); the result is a function of the integer alone.
#[verifier::external_body]
pub fn of_u32_bits(x: u32) -> (r: u64)
    ensures
        r == dbl_of_u32(x),
{
    rustc_apfloat::ieee::Double::from_u128(x as u128).value.to_bits() as u64
}

/// The magnitude (absolute-value) field of a binary64 pattern.
pub open spec fn dbl_mag(a: u64) -> u64 {
    a & DBL_MAG_MASK
}

/// Whether the sign bit of a binary64 pattern is set.
pub open spec fn dbl_is_neg(a: u64) -> bool {
    a >= 0x8000_0000_0000_0000
}

/// Whether a binary64 pattern is a NaN: exponent all ones and a
/// non-zero mantissa, i.e. a magnitude above that of infinity.
pub open spec fn dbl_is_nan(a: u64) -> bool {
    dbl_mag(a) > DBL_INF_MAG
}

/// The IEEE-754 `<` relation, read off the sign-magnitude encoding:
/// false whenever either side is NaN; negative values order by
/// descending magnitude; the two zeros are equal.
pub open spec fn dbl_lt(a: u64, b: u64) -> bool {
    if dbl_is_nan(a) || dbl_is_nan(b) {
        false
    } else if dbl_is_neg(a) {
        if dbl_is_neg(b) {
            dbl_mag(b) < dbl_mag(a)
        } else {
            !(dbl_mag(a) == 0 && dbl_mag(b) == 0)
        }
    } else {
        if dbl_is_neg(b) {
            false
        } else {
            dbl_mag(a) < dbl_mag(b)
        }
    }
}

/// The IEEE-754 `<=` relation: `a <= b` iff neither is NaN and `b` is
/// not below `a`.
pub open spec fn dbl_le(a: u64, b: u64) -> bool {
    !dbl_is_nan(a) && !dbl_is_nan(b) && !dbl_lt(b, a)
}

/// The larger of two binary64 values, ignoring NaN: a NaN operand yields
/// the other operand.
pub open spec fn dbl_max(a: u64, b: u64) -> u64 {
    if dbl_is_nan(a) {
        b
    } else if dbl_is_nan(b) {
        a
    } else if dbl_lt(a, b) {
        b
    } else {
        a
    }
}

/// The smaller of two binary64 values, ignoring NaN: a NaN operand
/// yields the other operand.
pub open spec fn dbl_min(a: u64, b: u64) -> u64 {
    if dbl_is_nan(a) {
        b
    } else if dbl_is_nan(b) {
        a
    } else if dbl_lt(b, a) {
        b
    } else {
        a
    }
}

/// Whether a binary64 pattern is a NaN.
pub fn is_nan_bits(a: u64) -> (r: bool)
    ensures
        r == dbl_is_nan(a),
{
    (a & DBL_MAG_MASK) > DBL_INF_MAG
}

/// The IEEE-754 `<` relation on two binary64 patterns.
pub fn lt_bits(a: u64, b: u64) -> (r: bool)
    ensures
        r == dbl_lt(a, b),
{
    if is_nan_bits(a) || is_nan_bits(b) {
        false
    } else {
        let ma = a & DBL_MAG_MASK;
        let mb = b & DBL_MAG_MASK;
        if a >= 0x8000_0000_0000_0000 {
            if b >= 0x8000_0000_0000_0000 {
                mb < ma
            } else {
                !(ma == 0 && mb == 0)
            }
        } else {
            if b >= 0x8000_0000_0000_0000 {
                false
            } else {
                ma < mb
            }
        }
    }
}

/// The larger of two binary64 patterns, ignoring NaN.
pub fn max_bits(a: u64, b: u64) -> (r: u64)
    ensures
        r == dbl_max(a, b),
{
    if is_nan_bits(a) {
        b
    } else if is_nan_bits(b) {
        a
    } else if lt_bits(a, b) {
        b
    } else {
        a
    }
}

/// The smaller of two binary64 patterns, ignoring NaN.
pub fn min_bits(a: u64, b: u64) -> (r: u64)
    ensures
        r == dbl_min(a, b),
{
    if is_nan_bits(a) {
        b
    } else if is_nan_bits(b) {
        a
    } else if lt_bits(b, a) {
        b
    } else {
        a
    }
}

} // verus!
