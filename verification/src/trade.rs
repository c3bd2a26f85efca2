//! Trade execution: one buy or one sell, validated, priced, fee-split and
//! applied to the curve as a single all-or-nothing step.
//!
//! The fee is taken on the gross SOL side of every trade: a buy deducts it
//! from the SOL paid in before pricing, a sell deducts it from the SOL
//! computed by pricing before paying the trader. Every validation failure or
//! arithmetic failure leaves the curve exactly as it was.
//!
//! The spec functions in this module define the outcome of each trade —
//! which error it reports, the new curve state, the record it emits — and
//! the executable `buy` and `sell` are proved to return exactly those.

use vstd::prelude::*;

use crate::config::PlatformConfig;
use crate::curve::CompletionState;
use crate::curve::CurveState;
use crate::errors::CurveError;
use crate::fee::fee_of;
use crate::fee::net_of;
use crate::fee::split_fee;
use crate::math::checked_add;
use crate::pricing::sol_out_for_tokens;
use crate::pricing::swap_out;
use crate::pricing::tokens_out_for_sol;

verus! {

/// Immutable account of one executed trade, emitted by `buy` and `sell` and
/// never mutated afterwards. Amounts are in SOL units except `token_amount`;
/// `gross_amount` is the SOL side before the fee (paid in on a buy, computed
/// out on a sell), and `fee_amount + net_amount == gross_amount` exactly.
/// The reserve fields snapshot the curve after the trade.
#[derive(Clone, Copy, Debug, PartialEq, Eq, Structural)]
pub struct TradeRecord {
    /// Identity key of the trader, as the host resolved it.
    pub trader: u64,
    /// Identity key of the curve traded against.
    pub curve_id: u64,
    /// True for a buy, false for a sell.
    pub is_buy: bool,
    /// SOL side of the trade before the fee.
    pub gross_amount: u64,
    /// Fee taken from the gross amount.
    pub fee_amount: u64,
    /// Gross amount minus the fee: what entered the curve on a buy, what the
    /// trader received on a sell.
    pub net_amount: u64,
    /// Tokens paid out on a buy, or paid in on a sell.
    pub token_amount: u64,
    /// Virtual SOL reserve after the trade.
    pub virtual_sol_reserves: u64,
    /// Virtual token reserve after the trade.
    pub virtual_token_reserves: u64,
    /// Real SOL reserve after the trade.
    pub real_sol_reserves: u64,
    /// Real token reserve after the trade.
    pub real_token_reserves: u64,
    /// The curve's trade timestamp after the trade.
    pub timestamp: i64,
}

/// The fee a buy of `sol_in` pays.
pub open spec fn spec_buy_fee(cfg: PlatformConfig, sol_in: u64) -> int {
    fee_of(sol_in as int, cfg.fee_basis_points as int)
}

/// The SOL that enters the curve on a buy of `sol_in`: the gross amount
/// minus the fee. Pricing sees only this net amount.
pub open spec fn spec_buy_net(cfg: PlatformConfig, sol_in: u64) -> int {
    net_of(sol_in as int, cfg.fee_basis_points as int)
}

/// The tokens a buy of `sol_in` pays out.
pub open spec fn spec_buy_tokens_out(c: CurveState, cfg: PlatformConfig, sol_in: u64) -> int {
    swap_out(
        c.virtual_token_reserves as int,
        c.virtual_sol_reserves as int,
        spec_buy_net(cfg, sol_in),
    )
}

/// The first check a buy fails, or `None` when it executes. The checks run
/// in this order: pause flag, curve lifecycle, zero amount, buy bounds,
/// zero output, slippage, real token reserve, and reserve overflow.
pub open spec fn spec_buy_err(
    c: CurveState,
    cfg: PlatformConfig,
    sol_in: u64,
    min_tokens_out: u64,
) -> Option<CurveError> {
    if cfg.paused {
        Some(CurveError::PlatformPaused)
    } else if !(c.completion_state is Active) {
        Some(CurveError::TokenAlreadyGraduated)
    } else if sol_in == 0 {
        Some(CurveError::InvalidAmount)
    } else if sol_in < cfg.min_buy_amount {
        Some(CurveError::BelowMinimumBuy)
    } else if sol_in > cfg.max_buy_amount {
        Some(CurveError::AboveMaximumBuy)
    } else if spec_buy_tokens_out(c, cfg, sol_in) == 0 {
        Some(CurveError::ZeroOutputAmount)
    } else if spec_buy_tokens_out(c, cfg, sol_in) < min_tokens_out {
        Some(CurveError::SlippageExceeded)
    } else if spec_buy_tokens_out(c, cfg, sol_in) > c.real_token_reserves {
        Some(CurveError::InsufficientReserves)
    } else if c.virtual_sol_reserves + spec_buy_net(cfg, sol_in) > u64::MAX {
        Some(CurveError::Overflow)
    } else {
        None
    }
}

/// The curve after a successful buy: the net SOL joins both SOL reserves,
/// the tokens leave both token reserves, the supply is untouched (a buy
/// draws from pre-minted real reserves), and the curve graduates the moment
/// its real SOL reaches the threshold.
pub open spec fn spec_buy_next(c: CurveState, cfg: PlatformConfig, sol_in: u64, now: i64) -> CurveState {
    let net = spec_buy_net(cfg, sol_in);
    let tokens_out = spec_buy_tokens_out(c, cfg, sol_in);
    let new_real_sol = c.real_sol_reserves + net;
    CurveState {
        virtual_sol_reserves: (c.virtual_sol_reserves + net) as u64,
        virtual_token_reserves: (c.virtual_token_reserves - tokens_out) as u64,
        real_sol_reserves: new_real_sol as u64,
        real_token_reserves: (c.real_token_reserves - tokens_out) as u64,
        completion_state: if new_real_sol >= cfg.graduation_threshold {
            CompletionState::Graduating
        } else {
            CompletionState::Active
        },
        last_trade_timestamp: if now > c.last_trade_timestamp {
            now
        } else {
            c.last_trade_timestamp
        },
        ..c
    }
}

/// The record a successful buy emits.
pub open spec fn spec_buy_record(
    c: CurveState,
    cfg: PlatformConfig,
    trader: u64,
    curve_id: u64,
    sol_in: u64,
    now: i64,
) -> TradeRecord {
    let next = spec_buy_next(c, cfg, sol_in, now);
    TradeRecord {
        trader,
        curve_id,
        is_buy: true,
        gross_amount: sol_in,
        fee_amount: spec_buy_fee(cfg, sol_in) as u64,
        net_amount: spec_buy_net(cfg, sol_in) as u64,
        token_amount: spec_buy_tokens_out(c, cfg, sol_in) as u64,
        virtual_sol_reserves: next.virtual_sol_reserves,
        virtual_token_reserves: next.virtual_token_reserves,
        real_sol_reserves: next.real_sol_reserves,
        real_token_reserves: next.real_token_reserves,
        timestamp: next.last_trade_timestamp,
    }
}

/// The gross SOL a sell of `tokens_in` draws from the curve, before the fee.
pub open spec fn spec_sell_gross(c: CurveState, tokens_in: u64) -> int {
    swap_out(c.virtual_sol_reserves as int, c.virtual_token_reserves as int, tokens_in as int)
}

/// The fee a sell of `tokens_in` pays, taken from the gross SOL out.
pub open spec fn spec_sell_fee(c: CurveState, cfg: PlatformConfig, tokens_in: u64) -> int {
    fee_of(spec_sell_gross(c, tokens_in), cfg.fee_basis_points as int)
}

/// The SOL the trader receives on a sell of `tokens_in`.
pub open spec fn spec_sell_net(c: CurveState, cfg: PlatformConfig, tokens_in: u64) -> int {
    net_of(spec_sell_gross(c, tokens_in), cfg.fee_basis_points as int)
}

/// The first check a sell fails, or `None` when it executes. The checks run
/// in this order: pause flag, curve lifecycle, zero amount, trader balance,
/// zero output, slippage, real SOL reserve, and reserve overflow.
pub open spec fn spec_sell_err(
    c: CurveState,
    cfg: PlatformConfig,
    tokens_in: u64,
    min_sol_out: u64,
    trader_token_balance: u64,
) -> Option<CurveError> {
    if cfg.paused {
        Some(CurveError::PlatformPaused)
    } else if !(c.completion_state is Active) {
        Some(CurveError::TokenAlreadyGraduated)
    } else if tokens_in == 0 {
        Some(CurveError::InvalidAmount)
    } else if trader_token_balance < tokens_in {
        Some(CurveError::InsufficientTokenBalance)
    } else if spec_sell_gross(c, tokens_in) == 0 {
        Some(CurveError::ZeroOutputAmount)
    } else if spec_sell_net(c, cfg, tokens_in) < min_sol_out {
        Some(CurveError::SlippageExceeded)
    } else if spec_sell_gross(c, tokens_in) > c.real_sol_reserves {
        Some(CurveError::InsufficientCurveBalance)
    } else if c.virtual_token_reserves + tokens_in > u64::MAX {
        Some(CurveError::Overflow)
    } else {
        None
    }
}

/// The curve after a successful sell: the tokens join both token reserves
/// and the gross SOL leaves both SOL reserves. The fee part of that SOL
/// leaves the curve's custody for the fee recipient, so the full gross
/// amount is deducted. A sell never changes the lifecycle state.
pub open spec fn spec_sell_next(c: CurveState, cfg: PlatformConfig, tokens_in: u64, now: i64) -> CurveState {
    let gross = spec_sell_gross(c, tokens_in);
    CurveState {
        virtual_sol_reserves: (c.virtual_sol_reserves - gross) as u64,
        virtual_token_reserves: (c.virtual_token_reserves + tokens_in) as u64,
        real_sol_reserves: (c.real_sol_reserves - gross) as u64,
        real_token_reserves: (c.real_token_reserves + tokens_in) as u64,
        last_trade_timestamp: if now > c.last_trade_timestamp {
            now
        } else {
            c.last_trade_timestamp
        },
        ..c
    }
}

/// The record a successful sell emits.
pub open spec fn spec_sell_record(
    c: CurveState,
    cfg: PlatformConfig,
    trader: u64,
    curve_id: u64,
    tokens_in: u64,
    now: i64,
) -> TradeRecord {
    let next = spec_sell_next(c, cfg, tokens_in, now);
    TradeRecord {
        trader,
        curve_id,
        is_buy: false,
        gross_amount: spec_sell_gross(c, tokens_in) as u64,
        fee_amount: spec_sell_fee(c, cfg, tokens_in) as u64,
        net_amount: spec_sell_net(c, cfg, tokens_in) as u64,
        token_amount: tokens_in,
        virtual_sol_reserves: next.virtual_sol_reserves,
        virtual_token_reserves: next.virtual_token_reserves,
        real_sol_reserves: next.real_sol_reserves,
        real_token_reserves: next.real_token_reserves,
        timestamp: next.last_trade_timestamp,
    }
}

impl CurveState {
    /// Executes one buy: `trader` pays `sol_in` gross SOL and receives the
    /// constant-product token output for the fee-net amount.
    ///
    /// All-or-nothing: on any error the curve is untouched and the error is
    /// exactly the first failed check of `spec_buy_err`. On success the
    /// curve becomes `spec_buy_next` — and graduates the moment the raised
    /// SOL reaches the configured threshold — and the returned record is
    /// `spec_buy_record`, whose fee and net amounts recompose the gross
    /// amount exactly.
    pub fn buy(
        &mut self,
        cfg: &PlatformConfig,
        trader: u64,
        curve_id: u64,
        sol_in: u64,
        min_tokens_out: u64,
        now: i64,
    ) -> (r: Result<TradeRecord, CurveError>)
        requires
            old(self).wf(),
            cfg.wf(),
        ensures
            final(self).wf(),
            r is Ok <==> spec_buy_err(*old(self), *cfg, sol_in, min_tokens_out) is None,
            r matches Ok(rec) ==> *final(self) == spec_buy_next(*old(self), *cfg, sol_in, now)
                && rec == spec_buy_record(*old(self), *cfg, trader, curve_id, sol_in, now)
                && rec.fee_amount + rec.net_amount == rec.gross_amount,
            r matches Err(e) ==> Some(e) == spec_buy_err(*old(self), *cfg, sol_in, min_tokens_out)
                && *final(self) == *old(self),
    {
        if cfg.paused {
            return Err(CurveError::PlatformPaused);
        }
        if !self.is_active() {
            return Err(CurveError::TokenAlreadyGraduated);
        }
        if sol_in == 0 {
            return Err(CurveError::InvalidAmount);
        }
        if sol_in < cfg.min_buy_amount {
            return Err(CurveError::BelowMinimumBuy);
        }
        if sol_in > cfg.max_buy_amount {
            return Err(CurveError::AboveMaximumBuy);
        }
        let (fee_amount, net_in) = split_fee(sol_in, cfg.fee_basis_points);
        let tokens_out = match tokens_out_for_sol(
            self.virtual_sol_reserves,
            self.virtual_token_reserves,
            net_in,
        ) {
            Ok(t) => t,
            Err(e) => { return Err(e) },
        };
        if tokens_out == 0 {
            return Err(CurveError::ZeroOutputAmount);
        }
        if tokens_out < min_tokens_out {
            return Err(CurveError::SlippageExceeded);
        }
        if tokens_out > self.real_token_reserves {
            return Err(CurveError::InsufficientReserves);
        }
        let new_virtual_sol = match checked_add(self.virtual_sol_reserves, net_in) {
            Ok(v) => v,
            Err(e) => { return Err(e) },
        };
        let new_real_sol = self.real_sol_reserves + net_in;
        let new_virtual_token = self.virtual_token_reserves - tokens_out;
        let new_real_token = self.real_token_reserves - tokens_out;
        self.virtual_sol_reserves = new_virtual_sol;
        self.virtual_token_reserves = new_virtual_token;
        self.real_sol_reserves = new_real_sol;
        self.real_token_reserves = new_real_token;
        if new_real_sol >= cfg.graduation_threshold {
            self.completion_state = CompletionState::Graduating;
        }
        let timestamp = if now > self.last_trade_timestamp {
            now
        } else {
            self.last_trade_timestamp
        };
        self.last_trade_timestamp = timestamp;
        Ok(
            TradeRecord {
                trader,
                curve_id,
                is_buy: true,
                gross_amount: sol_in,
                fee_amount,
                net_amount: net_in,
                token_amount: tokens_out,
                virtual_sol_reserves: new_virtual_sol,
                virtual_token_reserves: new_virtual_token,
                real_sol_reserves: new_real_sol,
                real_token_reserves: new_real_token,
                timestamp,
            },
        )
    }

    /// Executes one sell: `trader` pays `tokens_in` tokens back to the curve
    /// and receives the constant-product SOL output minus the fee.
    ///
    /// All-or-nothing: on any error the curve is untouched and the error is
    /// exactly the first failed check of `spec_sell_err`. On success the
    /// curve becomes `spec_sell_next` and the returned record is
    /// `spec_sell_record`, whose fee and net amounts recompose the gross
    /// SOL output exactly.
    pub fn sell(
        &mut self,
        cfg: &PlatformConfig,
        trader: u64,
        curve_id: u64,
        tokens_in: u64,
        min_sol_out: u64,
        trader_token_balance: u64,
        now: i64,
    ) -> (r: Result<TradeRecord, CurveError>)
        requires
            old(self).wf(),
            cfg.wf(),
        ensures
            final(self).wf(),
            r is Ok <==> spec_sell_err(*old(self), *cfg, tokens_in, min_sol_out, trader_token_balance) is None,
            r matches Ok(rec) ==> *final(self) == spec_sell_next(*old(self), *cfg, tokens_in, now)
                && rec == spec_sell_record(*old(self), *cfg, trader, curve_id, tokens_in, now)
                && rec.fee_amount + rec.net_amount == rec.gross_amount,
            r matches Err(e) ==> Some(e) == spec_sell_err(
                *old(self),
                *cfg,
                tokens_in,
                min_sol_out,
                trader_token_balance,
            ) && *final(self) == *old(self),
    {
        if cfg.paused {
            return Err(CurveError::PlatformPaused);
        }
        if !self.is_active() {
            return Err(CurveError::TokenAlreadyGraduated);
        }
        if tokens_in == 0 {
            return Err(CurveError::InvalidAmount);
        }
        if trader_token_balance < tokens_in {
            return Err(CurveError::InsufficientTokenBalance);
        }
        let gross_out = match sol_out_for_tokens(
            self.virtual_token_reserves,
            self.virtual_sol_reserves,
            tokens_in,
        ) {
            Ok(s) => s,
            Err(e) => { return Err(e) },
        };
        if gross_out == 0 {
            return Err(CurveError::ZeroOutputAmount);
        }
        let (fee_amount, net_out) = split_fee(gross_out, cfg.fee_basis_points);
        if net_out < min_sol_out {
            return Err(CurveError::SlippageExceeded);
        }
        if gross_out > self.real_sol_reserves {
            return Err(CurveError::InsufficientCurveBalance);
        }
        let new_virtual_token = match checked_add(self.virtual_token_reserves, tokens_in) {
            Ok(v) => v,
            Err(e) => { return Err(e) },
        };
        let new_real_token = self.real_token_reserves + tokens_in;
        let new_virtual_sol = self.virtual_sol_reserves - gross_out;
        let new_real_sol = self.real_sol_reserves - gross_out;
        self.virtual_sol_reserves = new_virtual_sol;
        self.virtual_token_reserves = new_virtual_token;
        self.real_sol_reserves = new_real_sol;
        self.real_token_reserves = new_real_token;
        let timestamp = if now > self.last_trade_timestamp {
            now
        } else {
            self.last_trade_timestamp
        };
        self.last_trade_timestamp = timestamp;
        Ok(
            TradeRecord {
                trader,
                curve_id,
                is_buy: false,
                gross_amount: gross_out,
                fee_amount,
                net_amount: net_out,
                token_amount: tokens_in,
                virtual_sol_reserves: new_virtual_sol,
                virtual_token_reserves: new_virtual_token,
                real_sol_reserves: new_real_sol,
                real_token_reserves: new_real_token,
                timestamp,
            },
        )
    }
}

} // verus!
