//! Checked arithmetic and fee splitting.

use bonding_curve::errors::CurveError;
use bonding_curve::fee::split_fee;
use bonding_curve::math::checked_add;
use bonding_curve::math::checked_div;
use bonding_curve::math::checked_mul;
use bonding_curve::math::checked_sub;
use bonding_curve::math::mul_div;

#[test]
fn add_in_range() {
    assert_eq!(checked_add(2, 3), Ok(5));
    assert_eq!(checked_add(u64::MAX - 1, 1), Ok(u64::MAX));
}

#[test]
fn add_overflow_fails_closed() {
    assert_eq!(checked_add(u64::MAX, 1), Err(CurveError::Overflow));
    assert_eq!(checked_add(u64::MAX, u64::MAX), Err(CurveError::Overflow));
}

#[test]
fn sub_in_range() {
    assert_eq!(checked_sub(5, 3), Ok(2));
    assert_eq!(checked_sub(5, 5), Ok(0));
}

#[test]
fn sub_underflow_fails_closed() {
    assert_eq!(checked_sub(3, 5), Err(CurveError::Underflow));
    assert_eq!(checked_sub(0, 1), Err(CurveError::Underflow));
}

#[test]
fn mul_widens_and_narrows() {
    assert_eq!(checked_mul(3, 4), Ok(12));
    // 2^32 * (2^32 - 1) is the largest power-of-two-scale product that fits.
    assert_eq!(checked_mul(1 << 32, (1 << 32) - 1), Ok(18446744069414584320));
}

#[test]
fn mul_overflow_fails_closed() {
    assert_eq!(checked_mul(1 << 32, 1 << 32), Err(CurveError::Overflow));
    assert_eq!(checked_mul(u64::MAX, u64::MAX), Err(CurveError::Overflow));
    assert_eq!(checked_mul(u64::MAX, 2), Err(CurveError::Overflow));
}

#[test]
fn div_truncates_toward_zero() {
    assert_eq!(checked_div(7, 2), Ok(3));
    assert_eq!(checked_div(0, 9), Ok(0));
}

#[test]
fn div_by_zero_fails_closed() {
    assert_eq!(checked_div(7, 0), Err(CurveError::DivisionByZero));
}

#[test]
fn mul_div_widened_intermediate() {
    // u64::MAX * 1000 exceeds 64 bits; the widened quotient still fits.
    assert_eq!(mul_div(u64::MAX, 1000, 10000), Ok(1844674407370955161));
    assert_eq!(mul_div(6, 7, 2), Ok(21));
}

#[test]
fn mul_div_error_cases() {
    assert_eq!(mul_div(5, 5, 0), Err(CurveError::DivisionByZero));
    assert_eq!(mul_div(u64::MAX, 2, 1), Err(CurveError::Overflow));
}

#[test]
fn fee_split_exact() {
    // 100 basis points of 1 SOL (in lamports).
    assert_eq!(split_fee(1_000_000_000, 100), (10_000_000, 990_000_000));
}

#[test]
fn fee_rounds_down_to_dust() {
    // 100 bps of 99 lamports rounds down to zero fee.
    assert_eq!(split_fee(99, 100), (0, 99));
}

#[test]
fn fee_conserves_gross_amount() {
    for gross in [0u64, 1, 99, 10_000, u64::MAX] {
        for bps in [0u16, 1, 100, 999, 1000] {
            let (fee, net) = split_fee(gross, bps);
            assert_eq!(fee + net, gross);
            assert!(fee <= gross);
        }
    }
}

#[test]
fn fee_zero_rate_takes_nothing() {
    assert_eq!(split_fee(123_456_789, 0), (0, 123_456_789));
}

#[test]
fn fee_max_rate_is_ten_percent() {
    assert_eq!(split_fee(10_000, 1000), (1_000, 9_000));
}
