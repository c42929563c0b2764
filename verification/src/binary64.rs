use rustc_apfloat::ieee::Double;
use rustc_apfloat::{Float, Round};
use vstd::prelude::*;

verus! {

/// True of the bit patterns that IEEE 754 binary64 reads as NaN:
/// all eleven exponent bits set and a non-zero fraction.
pub open spec fn is_nan_bits(b: u64) -> bool {
    (b >> 52) & 0x7ff == 0x7ff && (b & 0xf_ffff_ffff_ffff) != 0
}

/// The bit pattern of the binary64 sum of the numbers `a` and `b` encode,
/// rounded to nearest, ties to even.
pub uninterp spec fn add_bits(a: u64, b: u64) -> u64;

/// The bit pattern of the binary64 difference of the numbers `a` and `b` encode.
pub uninterp spec fn sub_bits(a: u64, b: u64) -> u64;

/// The bit pattern of the binary64 product of the numbers `a` and `b` encode.
pub uninterp spec fn mul_bits(a: u64, b: u64) -> u64;

/// The bit pattern of the binary64 quotient of the numbers `a` and `b` encode.
pub uninterp spec fn div_bits(a: u64, b: u64) -> u64;

/// Whether the numbers `a` and `b` encode compare equal under IEEE 754.
pub uninterp spec fn eq_bits(a: u64, b: u64) -> bool;

/// Whether the number `a` encodes is greater than the one `b` encodes.
pub uninterp spec fn gt_bits(a: u64, b: u64) -> bool;

/// Whether the number `a` encodes is less than the one `b` encodes.
pub uninterp spec fn lt_bits(a: u64, b: u64) -> bool;

/// Whether the number `a` encodes is greater than or equal to the one `b` encodes.
pub uninterp spec fn ge_bits(a: u64, b: u64) -> bool;

/// Whether the number `a` encodes is less than or equal to the one `b` encodes.
pub uninterp spec fn le_bits(a: u64, b: u64) -> bool;

/// The bit pattern of the binary64 number with the value of `i`.
pub uninterp spec fn real_of_int(i: i32) -> u64;

/// Relies on `rustc_apfloat::ieee::Double`'s `Add`: IEEE 754 binary64
/// addition, rounded to nearest, ties to even. The sum is a function of
/// the two operand values alone; when neither operand is a NaN the
/// rounded sum does not depend on the operand order.
#[verifier::external_body]
pub(crate) fn real_add(a: u64, b: u64) -> (r: u64)
    ensures
        r == add_bits(a, b),
        !is_nan_bits(a) && !is_nan_bits(b) ==> r == add_bits(b, a),
{
    let x = Double::from_bits(a as u128);
    let y = Double::from_bits(b as u128);
    x.add_r(y, Round::NearestTiesToEven).value.to_bits() as u64
}

/// Relies on `rustc_apfloat::ieee::Double`'s `Sub`: IEEE 754 binary64
/// subtraction, rounded to nearest, ties to even.
#[verifier::external_body]
pub(crate) fn real_sub(a: u64, b: u64) -> (r: u64)
    ensures
        r == sub_bits(a, b),
{
    let x = Double::from_bits(a as u128);
    let y = Double::from_bits(b as u128);
    x.sub_r(y, Round::NearestTiesToEven).value.to_bits() as u64
}

/// Relies on `rustc_apfloat::ieee::Double`'s `Mul`: IEEE 754 binary64
/// multiplication, rounded to nearest, ties to even.
#[verifier::external_body]
pub(crate) fn real_mul(a: u64, b: u64) -> (r: u64)
    ensures
        r == mul_bits(a, b),
{
    let x = Double::from_bits(a as u128);
    let y = Double::from_bits(b as u128);
    x.mul_r(y, Round::NearestTiesToEven).value.to_bits() as u64
}

/// Relies on `rustc_apfloat::ieee::Double`'s `Div`: IEEE 754 binary64
/// division, rounded to nearest, ties to even.
#[verifier::external_body]
pub(crate) fn real_div(a: u64, b: u64) -> (r: u64)
    ensures
        r == div_bits(a, b),
{
    let x = Double::from_bits(a as u128);
    let y = Double::from_bits(b as u128);
    x.div_r(y, Round::NearestTiesToEven).value.to_bits() as u64
}

/// Relies on `rustc_apfloat::ieee::Double`'s `PartialEq::eq`: IEEE 754
/// equality of the encoded values.
#[verifier::external_body]
pub(crate) fn real_eq(a: u64, b: u64) -> (r: bool)
    ensures
        r == eq_bits(a, b),
{
    Double::from_bits(a as u128) == Double::from_bits(b as u128)
}

/// Relies on `rustc_apfloat::ieee::Double`'s `PartialOrd::gt`: IEEE 754
/// ordering of the encoded values.
#[verifier::external_body]
pub(crate) fn real_gt(a: u64, b: u64) -> (r: bool)
    ensures
        r == gt_bits(a, b),
{
    Double::from_bits(a as u128) > Double::from_bits(b as u128)
}

/// Relies on `rustc_apfloat::ieee::Double`'s `PartialOrd::lt`: IEEE 754
/// ordering of the encoded values.
#[verifier::external_body]
pub(crate) fn real_lt(a: u64, b: u64) -> (r: bool)
    ensures
        r == lt_bits(a, b),
{
    Double::from_bits(a as u128) < Double::from_bits(b as u128)
}

/// Relies on `rustc_apfloat::ieee::Double`'s `PartialOrd::ge`: IEEE 754
/// ordering of the encoded values.
#[verifier::external_body]
pub(crate) fn real_ge(a: u64, b: u64) -> (r: bool)
    ensures
        r == ge_bits(a, b),
{
    Double::from_bits(a as u128) >= Double::from_bits(b as u128)
}

/// Relies on `rustc_apfloat::ieee::Double`'s `PartialOrd::le`: IEEE 754
/// ordering of the encoded values.
#[verifier::external_body]
pub(crate) fn real_le(a: u64, b: u64) -> (r: bool)
    ensures
        r == le_bits(a, b),
{
    Double::from_bits(a as u128) <= Double::from_bits(b as u128)
}

/// Relies on `rustc_apfloat::ieee::Double::from_i128`: conversion of an
/// integer to binary64. Every 32-bit integer is represented exactly, so
/// the result is finite and in particular never a NaN.
#[verifier::external_body]
pub(crate) fn int_to_real(i: i32) -> (r: u64)
    ensures
        r == real_of_int(i),
        !is_nan_bits(r),
{
    Double::from_i128(i as i128).value.to_bits() as u64
}

} // verus!
