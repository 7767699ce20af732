//! Sample arithmetic on raw IEEE-754 binary64 bit patterns.
//!
//! The graph engine stores every sample, gain and clock value as the `u64`
//! bit pattern of a binary64 number. The arithmetic itself is performed by
//! `rustc_apfloat`'s software implementation of IEEE-754, which is a pure
//! function of the operand bits; each operation's result is therefore given
//! an uninterpreted name that the callers' contracts are stated over.

use rustc_apfloat::ieee::Double;
use rustc_apfloat::Float;
use rustc_apfloat::Round;
use vstd::prelude::*;

verus! {

/// The bit pattern of the binary64 sum of the two operand bit patterns.
pub uninterp spec fn add_bits_of(a: u64, b: u64) -> u64;

/// The bit pattern of the binary64 difference of the two operand bit patterns.
pub uninterp spec fn sub_bits_of(a: u64, b: u64) -> u64;

/// The bit pattern of the binary64 product of the two operand bit patterns.
pub uninterp spec fn mul_bits_of(a: u64, b: u64) -> u64;

/// The bit pattern of the binary64 quotient of the two operand bit patterns.
pub uninterp spec fn div_bits_of(a: u64, b: u64) -> u64;

/// The binary64 value with the given bit pattern, truncated toward zero and
/// saturated into the `u64` range (zero for NaN and negative values).
pub uninterp spec fn trunc_u64_of(a: u64) -> u64;

/// The bit pattern of the binary64 value nearest to the given integer.
pub uninterp spec fn u64_to_bits_of(x: u64) -> u64;

/// Relies on `rustc_apfloat::ieee::Double::add_r`: IEEE-754 binary64
/// addition, rounding to nearest with ties to even, a function of the two
/// operand bit patterns alone.
#[verifier::external_body]
pub(crate) fn add_bits(a: u64, b: u64) -> (r: u64)
    ensures
        r == add_bits_of(a, b),
{
    let x = Double::from_bits(a as u128);
    let y = Double::from_bits(b as u128);
    x.add_r(y, Round::NearestTiesToEven).value.to_bits() as u64
}

/// Relies on `rustc_apfloat::ieee::Double::sub_r`: IEEE-754 binary64
/// subtraction, rounding to nearest with ties to even, a function of the two
/// operand bit patterns alone.
#[verifier::external_body]
pub(crate) fn sub_bits(a: u64, b: u64) -> (r: u64)
    ensures
        r == sub_bits_of(a, b),
{
    let x = Double::from_bits(a as u128);
    let y = Double::from_bits(b as u128);
    x.sub_r(y, Round::NearestTiesToEven).value.to_bits() as u64
}

/// Relies on `rustc_apfloat::ieee::Double::mul_r`: IEEE-754 binary64
/// multiplication, rounding to nearest with ties to even, a function of the
/// two operand bit patterns alone.
#[verifier::external_body]
pub(crate) fn mul_bits(a: u64, b: u64) -> (r: u64)
    ensures
        r == mul_bits_of(a, b),
{
    let x = Double::from_bits(a as u128);
    let y = Double::from_bits(b as u128);
    x.mul_r(y, Round::NearestTiesToEven).value.to_bits() as u64
}

/// Relies on `rustc_apfloat::ieee::Double::div_r`: IEEE-754 binary64
/// division, rounding to nearest with ties to even, a function of the two
/// operand bit patterns alone.
#[verifier::external_body]
pub(crate) fn div_bits(a: u64, b: u64) -> (r: u64)
    ensures
        r == div_bits_of(a, b),
{
    let x = Double::from_bits(a as u128);
    let y = Double::from_bits(b as u128);
    x.div_r(y, Round::NearestTiesToEven).value.to_bits() as u64
}

/// Relies on `rustc_apfloat::ieee::Double::to_u128_r` with rounding toward
/// zero: conversion of a binary64 value to an unsigned integer, saturating,
/// with NaN and negative values taken to zero, a function of the operand bit
/// pattern alone.
#[verifier::external_body]
pub(crate) fn trunc_bits_to_u64(a: u64) -> (r: u64)
    ensures
        r == trunc_u64_of(a),
{
    let x = Double::from_bits(a as u128);
    let mut exact = false;
    x.to_u128_r(64, Round::TowardZero, &mut exact).value as u64
}

/// Relies on `rustc_apfloat::ieee::Double::from_u128_r`: conversion of an
/// unsigned integer to the nearest binary64 value, a function of the integer
/// alone.
#[verifier::external_body]
pub(crate) fn u64_to_bits(x: u64) -> (r: u64)
    ensures
        r == u64_to_bits_of(x),
{
    Double::from_u128_r(x as u128, Round::NearestTiesToEven).value.to_bits() as u64
}

} // verus!
