//! Overflow-checked arithmetic on `u64` reserve quantities.
//!
//! Every other component performs its reserve math through these operations.
//! Each one either returns the exact mathematical result or fails closed with
//! `Overflow`, `Underflow` or `DivisionByZero`; nothing saturates or wraps.
//! Multiplication widens to 128 bits and narrows back with an explicit range
//! check.

use vstd::prelude::*;

use crate::errors::CurveError;

verus! {

/// `a + b`, or `Overflow` if the sum does not fit in a `u64`.
pub fn checked_add(a: u64, b: u64) -> (r: Result<u64, CurveError>)
    ensures
        a + b <= u64::MAX ==> r == Ok::<u64, CurveError>((a + b) as u64),
        a + b > u64::MAX ==> r == Err::<u64, CurveError>(CurveError::Overflow),
{
    match a.checked_add(b) {
        Some(v) => Ok(v),
        None => Err(CurveError::Overflow),
    }
}

/// `a - b`, or `Underflow` if `b` exceeds `a`.
pub fn checked_sub(a: u64, b: u64) -> (r: Result<u64, CurveError>)
    ensures
        b <= a ==> r == Ok::<u64, CurveError>((a - b) as u64),
        b > a ==> r == Err::<u64, CurveError>(CurveError::Underflow),
{
    match a.checked_sub(b) {
        Some(v) => Ok(v),
        None => Err(CurveError::Underflow),
    }
}

/// `a * b`, computed in 128 bits, or `Overflow` if the product does not fit
/// in a `u64`.
pub fn checked_mul(a: u64, b: u64) -> (r: Result<u64, CurveError>)
    ensures
        a * b <= u64::MAX ==> r == Ok::<u64, CurveError>((a * b) as u64),
        a * b > u64::MAX ==> r == Err::<u64, CurveError>(CurveError::Overflow),
{
    proof {
        lemma_u64_product_fits_u128(a, b);
    }
    let wide: u128 = (a as u128) * (b as u128);
    if wide > u64::MAX as u128 {
        Err(CurveError::Overflow)
    } else {
        Ok(wide as u64)
    }
}

/// `floor(a / b)`, or `DivisionByZero` if `b` is zero.
pub fn checked_div(a: u64, b: u64) -> (r: Result<u64, CurveError>)
    ensures
        b > 0 ==> r == Ok::<u64, CurveError>((a as int / b as int) as u64),
        b == 0 ==> r == Err::<u64, CurveError>(CurveError::DivisionByZero),
{
    if b == 0 {
        Err(CurveError::DivisionByZero)
    } else {
        Ok(a / b)
    }
}

/// `floor(a * b / d)` with the product widened to 128 bits, or
/// `DivisionByZero` if `d` is zero, or `Overflow` if the quotient does not
/// fit in a `u64`.
pub fn mul_div(a: u64, b: u64, d: u64) -> (r: Result<u64, CurveError>)
    ensures
        d == 0 ==> r == Err::<u64, CurveError>(CurveError::DivisionByZero),
        d > 0 && a * b / d as int <= u64::MAX ==> r == Ok::<u64, CurveError>(
            (a * b / d as int) as u64,
        ),
        d > 0 && a * b / d as int > u64::MAX ==> r == Err::<u64, CurveError>(CurveError::Overflow),
{
    if d == 0 {
        return Err(CurveError::DivisionByZero);
    }
    proof {
        lemma_u64_product_fits_u128(a, b);
    }
    let wide: u128 = (a as u128) * (b as u128);
    let q: u128 = wide / (d as u128);
    if q > u64::MAX as u128 {
        Err(CurveError::Overflow)
    } else {
        Ok(q as u64)
    }
}

/// The product of two `u64` values always fits in a `u128`.
pub proof fn lemma_u64_product_fits_u128(a: u64, b: u64)
    ensures
        a * b <= u64::MAX * u64::MAX,
        a * b <= u128::MAX,
{
    assert(a * b <= u64::MAX * u64::MAX) by (nonlinear_arith)
        requires
            a <= u64::MAX,
            b <= u64::MAX,
    ;
}

} // verus!
