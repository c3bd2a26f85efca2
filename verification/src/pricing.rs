//! Constant-product pricing.
//!
//! Both trade directions evaluate the same integral of the `x * y = k` spot
//! price exactly, with the product widened to 128 bits and the quotient
//! truncated toward zero. Truncation always favors the curve over the
//! trader; rounding the other way would open an arbitrage.

use vstd::prelude::*;

use crate::errors::CurveError;

verus! {

/// What a constant-product swap pays out: the input amount joins the
/// input-side reserve, and the output is the share of the output-side
/// reserve that keeps the product constant, rounded down.
pub open spec fn swap_out(out_reserve: int, in_reserve: int, amount_in: int) -> int {
    out_reserve * amount_in / (in_reserve + amount_in)
}

/// Tokens paid out for `sol_in` SOL entering the curve.
///
/// Fails with `InvalidAmount` on a zero input, before the formula is
/// reached; for every positive input it returns exactly
/// `floor(virtual_token_reserves * sol_in / (virtual_sol_reserves + sol_in))`,
/// which is always strictly below the token-side reserve, so a buy alone can
/// never drain the virtual token reserve.
pub fn tokens_out_for_sol(virtual_sol_reserves: u64, virtual_token_reserves: u64, sol_in: u64) -> (r:
    Result<u64, CurveError>)
    requires
        virtual_sol_reserves >= 1,
        virtual_token_reserves >= 1,
    ensures
        sol_in == 0 ==> r == Err::<u64, CurveError>(CurveError::InvalidAmount),
        sol_in > 0 ==> (r matches Ok(t) && t == swap_out(
            virtual_token_reserves as int,
            virtual_sol_reserves as int,
            sol_in as int,
        ) && t < virtual_token_reserves),
{
    if sol_in == 0 {
        return Err(CurveError::InvalidAmount);
    }
    proof {
        crate::math::lemma_u64_product_fits_u128(virtual_token_reserves, sol_in);
        lemma_swap_out_bounds(
            virtual_token_reserves as int,
            virtual_sol_reserves as int,
            sol_in as int,
        );
    }
    let numerator: u128 = (virtual_token_reserves as u128) * (sol_in as u128);
    let denominator: u128 = (virtual_sol_reserves as u128) + (sol_in as u128);
    let tokens_out: u128 = numerator / denominator;
    Ok(tokens_out as u64)
}

/// SOL paid out for `tokens_in` tokens entering the curve.
///
/// Fails with `InvalidAmount` on a zero input; for every positive input it
/// returns exactly
/// `floor(virtual_sol_reserves * tokens_in / (virtual_token_reserves + tokens_in))`,
/// always strictly below the SOL-side reserve.
pub fn sol_out_for_tokens(virtual_token_reserves: u64, virtual_sol_reserves: u64, tokens_in: u64) -> (r:
    Result<u64, CurveError>)
    requires
        virtual_token_reserves >= 1,
        virtual_sol_reserves >= 1,
    ensures
        tokens_in == 0 ==> r == Err::<u64, CurveError>(CurveError::InvalidAmount),
        tokens_in > 0 ==> (r matches Ok(s) && s == swap_out(
            virtual_sol_reserves as int,
            virtual_token_reserves as int,
            tokens_in as int,
        ) && s < virtual_sol_reserves),
{
    if tokens_in == 0 {
        return Err(CurveError::InvalidAmount);
    }
    proof {
        crate::math::lemma_u64_product_fits_u128(virtual_sol_reserves, tokens_in);
        lemma_swap_out_bounds(
            virtual_sol_reserves as int,
            virtual_token_reserves as int,
            tokens_in as int,
        );
    }
    let numerator: u128 = (virtual_sol_reserves as u128) * (tokens_in as u128);
    let denominator: u128 = (virtual_token_reserves as u128) + (tokens_in as u128);
    let sol_out: u128 = numerator / denominator;
    Ok(sol_out as u64)
}

/// A swap can never pay out the whole output-side reserve: the output is
/// nonnegative and strictly below `out_reserve` whenever the input-side
/// reserve is positive.
pub proof fn lemma_swap_out_bounds(out_reserve: int, in_reserve: int, amount_in: int)
    requires
        1 <= out_reserve,
        1 <= in_reserve,
        1 <= amount_in,
    ensures
        0 <= swap_out(out_reserve, in_reserve, amount_in) < out_reserve,
{
    let numerator = out_reserve * amount_in;
    let denominator = in_reserve + amount_in;
    assert(numerator >= 0) by (nonlinear_arith)
        requires
            out_reserve >= 1,
            amount_in >= 1,
            numerator == out_reserve * amount_in,
    ;
    vstd::arithmetic::div_mod::lemma_div_pos_is_pos(numerator, denominator);
    assert(numerator < denominator * out_reserve) by (nonlinear_arith)
        requires
            out_reserve >= 1,
            in_reserve >= 1,
            amount_in >= 1,
            numerator == out_reserve * amount_in,
            denominator == in_reserve + amount_in,
    ;
    vstd::arithmetic::div_mod::lemma_multiply_divide_lt(numerator, denominator, out_reserve);
}

/// Floor division keeps order across different denominators whenever the
/// cross products do: `a1 / d1 <= a2 / d2` follows from `a1 * d2 <= a2 * d1`.
proof fn lemma_div_cross_monotone(a1: int, d1: int, a2: int, d2: int)
    requires
        0 <= a1,
        1 <= d1,
        0 <= a2,
        1 <= d2,
        a1 * d2 <= a2 * d1,
    ensures
        a1 / d1 <= a2 / d2,
{
    let q1 = a1 / d1;
    vstd::arithmetic::div_mod::lemma_div_pos_is_pos(a1, d1);
    vstd::arithmetic::div_mod::lemma_fundamental_div_mod(a1, d1);
    vstd::arithmetic::div_mod::lemma_mod_division_less_than_divisor(a1, d1);
    assert(q1 * d1 <= a1);
    assert(q1 * d2 <= a2) by (nonlinear_arith)
        requires
            q1 * d1 <= a1,
            a1 * d2 <= a2 * d1,
            0 <= q1,
            1 <= d1,
            1 <= d2,
    ;
    vstd::arithmetic::div_mod::lemma_div_is_ordered(q1 * d2, a2, d2);
    vstd::arithmetic::div_mod::lemma_div_by_multiple(q1, d2);
}

/// Pricing is monotone in the input: paying more SOL into the same reserves
/// never yields fewer tokens (and symmetrically for the sell direction).
pub proof fn lemma_swap_out_monotone(
    out_reserve: int,
    in_reserve: int,
    amount_1: int,
    amount_2: int,
)
    requires
        0 <= out_reserve,
        1 <= in_reserve,
        0 <= amount_1 <= amount_2,
    ensures
        swap_out(out_reserve, in_reserve, amount_1) <= swap_out(out_reserve, in_reserve, amount_2),
{
    let a1 = out_reserve * amount_1;
    let d1 = in_reserve + amount_1;
    let a2 = out_reserve * amount_2;
    let d2 = in_reserve + amount_2;
    assert(0 <= a1 && 0 <= a2 && a1 * d2 <= a2 * d1) by (nonlinear_arith)
        requires
            0 <= out_reserve,
            1 <= in_reserve,
            0 <= amount_1 <= amount_2,
            a1 == out_reserve * amount_1,
            d1 == in_reserve + amount_1,
            a2 == out_reserve * amount_2,
            d2 == in_reserve + amount_2,
    ;
    lemma_div_cross_monotone(a1, d1, a2, d2);
}

} // verus!
