//! Basis-point fee extraction.
//!
//! Fees are always taken on the gross SOL amount of a trade (the SOL paid in
//! on a buy, the SOL coming out on a sell), never on token quantities, and
//! always round down, so the curve keeps at most the rounding dust.

use vstd::prelude::*;

use crate::errors::CurveError;

verus! {

/// One basis point is 1/100 of a percent; fees are `gross * bps / 10000`.
pub const BPS_DENOMINATOR: u64 = 10000;

/// The highest fee rate a configuration may carry: 1000 basis points (10%).
pub const MAX_FEE_BASIS_POINTS: u16 = 1000;

/// The fee owed on a gross amount at a given basis-point rate, rounded down.
pub open spec fn fee_of(gross: int, fee_basis_points: int) -> int {
    gross * fee_basis_points / (BPS_DENOMINATOR as int)
}

/// What remains of a gross amount once the fee is taken.
pub open spec fn net_of(gross: int, fee_basis_points: int) -> int {
    gross - fee_of(gross, fee_basis_points)
}

/// Splits a gross SOL amount into `(fee, net)` at `fee_basis_points`.
///
/// The parts always recompose exactly: `fee + net == gross`. At any rate the
/// configuration allows (at most 1000 basis points), the fee stays strictly
/// below the gross amount, so a positive gross amount leaves a positive net
/// amount.
pub fn split_fee(gross: u64, fee_basis_points: u16) -> (r: (u64, u64))
    requires
        fee_basis_points <= MAX_FEE_BASIS_POINTS,
    ensures
        r.0 == fee_of(gross as int, fee_basis_points as int),
        r.1 == net_of(gross as int, fee_basis_points as int),
        r.0 + r.1 == gross,
        gross > 0 ==> r.1 > 0,
{
    proof {
        lemma_fee_bounds(gross as int, fee_basis_points as int);
    }
    let wide: u128 = (gross as u128) * (fee_basis_points as u128);
    let fee: u64 = (wide / (BPS_DENOMINATOR as u128)) as u64;
    let net: u64 = gross - fee;
    (fee, net)
}

/// The fee never reaches the gross amount while the rate is below the whole
/// (10000 basis points), and a zero gross amount carries a zero fee.
pub proof fn lemma_fee_bounds(gross: int, fee_basis_points: int)
    requires
        0 <= gross,
        0 <= fee_basis_points < BPS_DENOMINATOR as int,
    ensures
        0 <= fee_of(gross, fee_basis_points),
        gross == 0 ==> fee_of(gross, fee_basis_points) == 0,
        gross > 0 ==> fee_of(gross, fee_basis_points) < gross,
        gross == 0 ==> net_of(gross, fee_basis_points) == 0,
        gross > 0 ==> 0 < net_of(gross, fee_basis_points) <= gross,
{
    let d = BPS_DENOMINATOR as int;
    vstd::arithmetic::div_mod::lemma_div_pos_is_pos(gross * fee_basis_points, d);
    assert(gross * fee_basis_points >= 0) by (nonlinear_arith)
        requires
            gross >= 0,
            fee_basis_points >= 0,
    ;
    if gross > 0 {
        assert(gross * fee_basis_points < d * gross) by (nonlinear_arith)
            requires
                gross > 0,
                0 <= fee_basis_points < d,
        ;
        vstd::arithmetic::div_mod::lemma_multiply_divide_lt(gross * fee_basis_points, d, gross);
    } else {
        assert(fee_of(0, fee_basis_points) == 0) by {
            vstd::arithmetic::div_mod::lemma_div_of0(d);
        }
    }
}

/// Fee conservation: however a trade's gross amount is split, the fee and the
/// net part add back to the gross amount exactly; no unit is lost or created
/// beyond the defined downward rounding of the fee itself.
pub proof fn lemma_fee_conservation(gross: int, fee_basis_points: int)
    requires
        0 <= gross,
        0 <= fee_basis_points < BPS_DENOMINATOR as int,
    ensures
        fee_of(gross, fee_basis_points) + net_of(gross, fee_basis_points) == gross,
        0 <= fee_of(gross, fee_basis_points) <= gross,
        0 <= net_of(gross, fee_basis_points) <= gross,
{
    lemma_fee_bounds(gross, fee_basis_points);
}

} // verus!
