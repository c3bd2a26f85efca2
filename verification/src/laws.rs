//! Global laws of the engine, proved once over the spec-level trade
//! transitions that `buy` and `sell` are proved to implement.
//!
//! `spec_trade_step` is exactly the state change of one `buy` or `sell`
//! call (a failed trade leaves the curve unchanged, as the executable
//! contracts guarantee), so each law here holds of every sequence of real
//! trades.

use vstd::prelude::*;

use vstd::arithmetic::div_mod::lemma_div_is_ordered;
use vstd::arithmetic::div_mod::lemma_div_multiples_vanish;
use vstd::arithmetic::div_mod::lemma_fundamental_div_mod;
use vstd::arithmetic::div_mod::lemma_mod_division_less_than_divisor;

use crate::config::PlatformConfig;
use crate::curve::CurveState;
use crate::fee::lemma_fee_bounds;
use crate::pricing::lemma_swap_out_bounds;
use crate::trade::spec_buy_err;
use crate::trade::spec_buy_fee;
use crate::trade::spec_buy_net;
use crate::trade::spec_buy_next;
use crate::trade::spec_buy_tokens_out;
use crate::trade::spec_sell_err;
use crate::trade::spec_sell_fee;
use crate::trade::spec_sell_gross;
use crate::trade::spec_sell_net;
use crate::trade::spec_sell_next;

verus! {

/// One trade request against a curve, as the executor sees it.
#[derive(Clone, Copy, Debug, PartialEq, Eq, Structural)]
pub enum TradeOp {
    /// A buy of `sol_in` gross SOL.
    Buy { sol_in: u64, min_tokens_out: u64, now: i64 },
    /// A sell of `tokens_in` tokens by a trader holding
    /// `trader_token_balance` of them.
    Sell { tokens_in: u64, min_sol_out: u64, trader_token_balance: u64, now: i64 },
}

/// The curve after one trade request: the successful trade's new state, or
/// the same curve when the trade fails any check. This is exactly what one
/// call of `CurveState::buy` or `CurveState::sell` does to the curve, by
/// their contracts.
pub open spec fn spec_trade_step(c: CurveState, cfg: PlatformConfig, op: TradeOp) -> CurveState {
    match op {
        TradeOp::Buy { sol_in, min_tokens_out, now } => {
            if spec_buy_err(c, cfg, sol_in, min_tokens_out) is None {
                spec_buy_next(c, cfg, sol_in, now)
            } else {
                c
            }
        },
        TradeOp::Sell { tokens_in, min_sol_out, trader_token_balance, now } => {
            if spec_sell_err(c, cfg, tokens_in, min_sol_out, trader_token_balance) is None {
                spec_sell_next(c, cfg, tokens_in, now)
            } else {
                c
            }
        },
    }
}

/// The curve after a whole sequence of trade requests, applied in order.
pub open spec fn spec_trade_run(c: CurveState, cfg: PlatformConfig, ops: Seq<TradeOp>) -> CurveState
    decreases ops.len(),
{
    if ops.len() == 0 {
        c
    } else {
        spec_trade_run(spec_trade_step(c, cfg, ops[0]), cfg, ops.drop_first())
    }
}

/// One trade preserves the reserve invariant.
pub proof fn lemma_trade_step_wf(c: CurveState, cfg: PlatformConfig, op: TradeOp)
    requires
        c.wf(),
        cfg.wf(),
    ensures
        spec_trade_step(c, cfg, op).wf(),
{
    let x = c.virtual_sol_reserves as int;
    let y = c.virtual_token_reserves as int;
    match op {
        TradeOp::Buy { sol_in, min_tokens_out, .. } => {
            if spec_buy_err(c, cfg, sol_in, min_tokens_out) is None {
                lemma_fee_bounds(sol_in as int, cfg.fee_basis_points as int);
                lemma_swap_out_bounds(y, x, spec_buy_net(cfg, sol_in));
            }
        },
        TradeOp::Sell { tokens_in, min_sol_out, trader_token_balance, .. } => {
            if spec_sell_err(c, cfg, tokens_in, min_sol_out, trader_token_balance) is None {
                lemma_swap_out_bounds(x, y, tokens_in as int);
            }
        },
    }
}

/// Reserve invariant over histories: after any sequence of buys and sells
/// on a well-formed curve, the real reserves still never exceed the virtual
/// ones, and the virtual reserves are still positive.
pub proof fn lemma_trade_run_wf(c: CurveState, cfg: PlatformConfig, ops: Seq<TradeOp>)
    requires
        c.wf(),
        cfg.wf(),
    ensures
        spec_trade_run(c, cfg, ops).wf(),
        spec_trade_run(c, cfg, ops).real_sol_reserves <= spec_trade_run(
            c,
            cfg,
            ops,
        ).virtual_sol_reserves,
        spec_trade_run(c, cfg, ops).real_token_reserves <= spec_trade_run(
            c,
            cfg,
            ops,
        ).virtual_token_reserves,
    decreases ops.len(),
{
    if ops.len() > 0 {
        lemma_trade_step_wf(c, cfg, ops[0]);
        lemma_trade_run_wf(spec_trade_step(c, cfg, ops[0]), cfg, ops.drop_first());
    }
}

/// The constant product never decreases through a trade: because both
/// pricing quotients round down, every buy and every sell leaves
/// `virtual_sol_reserves * virtual_token_reserves` at least as large as it
/// was. Reserves move only additively along the curve, never by rebasing.
pub proof fn lemma_constant_product_nondecreasing(c: CurveState, cfg: PlatformConfig, op: TradeOp)
    requires
        c.wf(),
        cfg.wf(),
    ensures
        spec_trade_step(c, cfg, op).virtual_sol_reserves * spec_trade_step(
            c,
            cfg,
            op,
        ).virtual_token_reserves >= c.virtual_sol_reserves * c.virtual_token_reserves,
{
    let x = c.virtual_sol_reserves as int;
    let y = c.virtual_token_reserves as int;
    match op {
        TradeOp::Buy { sol_in, min_tokens_out, .. } => {
            if spec_buy_err(c, cfg, sol_in, min_tokens_out) is None {
                lemma_fee_bounds(sol_in as int, cfg.fee_basis_points as int);
                let n = spec_buy_net(cfg, sol_in);
                let t = spec_buy_tokens_out(c, cfg, sol_in);
                lemma_swap_out_bounds(y, x, n);
                lemma_fundamental_div_mod(y * n, x + n);
                lemma_mod_division_less_than_divisor(y * n, x + n);
                let next = spec_trade_step(c, cfg, op);
                assert(next.virtual_sol_reserves == x + n);
                assert(next.virtual_token_reserves == y - t);
                assert((x + n) * (y - t) >= x * y) by (nonlinear_arith)
                    requires
                        y * n == (x + n) * t + (y * n) % (x + n),
                        (y * n) % (x + n) >= 0,
                ;
            }
        },
        TradeOp::Sell { tokens_in, min_sol_out, trader_token_balance, .. } => {
            if spec_sell_err(c, cfg, tokens_in, min_sol_out, trader_token_balance) is None {
                let a = tokens_in as int;
                let g = spec_sell_gross(c, tokens_in);
                lemma_swap_out_bounds(x, y, a);
                lemma_fundamental_div_mod(x * a, y + a);
                lemma_mod_division_less_than_divisor(x * a, y + a);
                let next = spec_trade_step(c, cfg, op);
                assert(next.virtual_sol_reserves == x - g);
                assert(next.virtual_token_reserves == y + a);
                assert((x - g) * (y + a) >= x * y) by (nonlinear_arith)
                    requires
                        x * a == (y + a) * g + (x * a) % (y + a),
                        (x * a) % (y + a) >= 0,
                ;
            }
        },
    }
}

/// A curve that has left `Active` is frozen against one trade request:
/// neither a buy nor a sell changes anything about it.
pub proof fn lemma_graduated_step_frozen(c: CurveState, cfg: PlatformConfig, op: TradeOp)
    requires
        !(c.completion_state is Active),
    ensures
        spec_trade_step(c, cfg, op) == c,
{
}

/// Graduation is one-directional: once a curve has left `Active`, no
/// sequence of further buy or sell requests changes any field of it — in
/// particular no reserve field ever moves again.
pub proof fn lemma_graduated_run_frozen(c: CurveState, cfg: PlatformConfig, ops: Seq<TradeOp>)
    requires
        !(c.completion_state is Active),
    ensures
        spec_trade_run(c, cfg, ops) == c,
    decreases ops.len(),
{
    if ops.len() > 0 {
        lemma_graduated_step_frozen(c, cfg, ops[0]);
        lemma_graduated_run_frozen(c, cfg, ops.drop_first());
    }
}

/// Round-trip bound: buying tokens for `sol_in` and immediately selling the
/// same tokens back never returns more SOL than was paid in — the gross SOL
/// the sell draws from the curve is already at most the net SOL the buy put
/// in — and returns strictly less as soon as either leg pays a nonzero fee.
pub proof fn lemma_round_trip_bound(
    c: CurveState,
    cfg: PlatformConfig,
    sol_in: u64,
    min_tokens_out: u64,
    now: i64,
)
    requires
        c.wf(),
        cfg.wf(),
        spec_buy_err(c, cfg, sol_in, min_tokens_out) is None,
    ensures
        ({
            let c1 = spec_buy_next(c, cfg, sol_in, now);
            let tokens_back = spec_buy_tokens_out(c, cfg, sol_in) as u64;
            &&& spec_sell_gross(c1, tokens_back) <= spec_buy_net(cfg, sol_in)
            &&& spec_sell_net(c1, cfg, tokens_back) <= spec_sell_gross(c1, tokens_back)
            &&& spec_sell_net(c1, cfg, tokens_back) <= sol_in
            &&& (spec_buy_fee(cfg, sol_in) > 0 || spec_sell_fee(c1, cfg, tokens_back) > 0)
                ==> spec_sell_net(c1, cfg, tokens_back) < sol_in
        }),
{
    let bps = cfg.fee_basis_points as int;
    let x = c.virtual_sol_reserves as int;
    let y = c.virtual_token_reserves as int;
    lemma_fee_bounds(sol_in as int, bps);
    let n = spec_buy_net(cfg, sol_in);
    let t = spec_buy_tokens_out(c, cfg, sol_in);
    lemma_swap_out_bounds(y, x, n);
    let c1 = spec_buy_next(c, cfg, sol_in, now);
    let tokens_back = t as u64;
    assert(c1.virtual_sol_reserves == x + n);
    assert(c1.virtual_token_reserves == y - t);
    // The sell denominator is the pre-buy virtual token reserve: the
    // bought tokens flow straight back in.
    assert(c1.virtual_token_reserves + tokens_back == y);
    let gross = spec_sell_gross(c1, tokens_back);
    // The buy's quotient is a floor: t * (x + n) never exceeds y * n.
    lemma_fundamental_div_mod(y * n, x + n);
    lemma_mod_division_less_than_divisor(y * n, x + n);
    assert((x + n) * t <= y * n) by (nonlinear_arith)
        requires
            y * n == (x + n) * ((y * n) / (x + n)) + (y * n) % (x + n),
            (y * n) % (x + n) >= 0,
            t == (y * n) / (x + n),
    ;
    lemma_div_is_ordered((x + n) * t, y * n, y);
    lemma_div_multiples_vanish(n, y);
    assert(gross == (x + n) * t / y);
    assert(gross <= n);
    lemma_fee_bounds(gross, bps);
    assert(spec_sell_net(c1, cfg, tokens_back) <= gross);
    if spec_sell_fee(c1, cfg, tokens_back) > 0 {
        assert(spec_sell_net(c1, cfg, tokens_back) < gross);
    }
}

} // verus!
