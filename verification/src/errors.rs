//! Error taxonomy of the engine.
//!
//! Input-validation errors, arithmetic errors and state errors all abort the
//! operation they occur in before any state is mutated; no error is retried
//! inside the engine.

use vstd::prelude::*;

verus! {

/// Every way an engine operation can fail. Each trade or configuration
/// operation reports the first check that failed; nothing is mutated on
/// failure.
#[derive(Clone, Copy, Debug, PartialEq, Eq, Structural)]
pub enum CurveError {
    /// An arithmetic result would exceed the width of its type.
    Overflow,
    /// An arithmetic result would fall below zero.
    Underflow,
    /// A divisor was zero.
    DivisionByZero,
    /// A fee rate above the allowed maximum of 1000 basis points.
    InvalidFeeRate,
    /// A virtual reserve of zero, or real reserves exceeding virtual ones.
    InvalidReserves,
    /// An initial token supply of zero.
    InvalidSupply,
    /// A minimum buy bound above the maximum buy bound.
    InvalidTradeLimits,
    /// A token name that is empty or too long.
    InvalidTokenName,
    /// A token symbol that is empty or too long.
    InvalidTokenSymbol,
    /// A metadata URI that is empty or too long.
    InvalidTokenUri,
    /// A trade amount of zero.
    InvalidAmount,
    /// A trade whose computed output would be zero.
    ZeroOutputAmount,
    /// A computed output below the caller's stated minimum.
    SlippageExceeded,
    /// A buy that would draw more tokens than the curve really holds.
    InsufficientReserves,
    /// A sell that would pay out more SOL than the curve really holds.
    InsufficientCurveBalance,
    /// A sell of more tokens than the trader holds.
    InsufficientTokenBalance,
    /// A buy below the configured minimum buy amount.
    BelowMinimumBuy,
    /// A buy above the configured maximum buy amount.
    AboveMaximumBuy,
    /// A trade while the platform is paused.
    PlatformPaused,
    /// A trade or completion attempt on a curve that already left `Active`.
    TokenAlreadyGraduated,
    /// A completion or migration attempt before the threshold was crossed.
    GraduationThresholdNotMet,
    /// A migration attempt on a curve that is already `Migrated`.
    TokenAlreadyMigrated,
}

impl CurveError {
    /// A short human-readable name for the error, for hosts that log it.
    pub fn name(&self) -> &'static str {
        match self {
            CurveError::Overflow => "overflow",
            CurveError::Underflow => "underflow",
            CurveError::DivisionByZero => "division by zero",
            CurveError::InvalidFeeRate => "invalid fee rate",
            CurveError::InvalidReserves => "invalid reserves",
            CurveError::InvalidSupply => "invalid supply",
            CurveError::InvalidTradeLimits => "invalid trade limits",
            CurveError::InvalidTokenName => "invalid token name",
            CurveError::InvalidTokenSymbol => "invalid token symbol",
            CurveError::InvalidTokenUri => "invalid token uri",
            CurveError::InvalidAmount => "invalid amount",
            CurveError::ZeroOutputAmount => "zero output amount",
            CurveError::SlippageExceeded => "slippage exceeded",
            CurveError::InsufficientReserves => "insufficient reserves",
            CurveError::InsufficientCurveBalance => "insufficient curve balance",
            CurveError::InsufficientTokenBalance => "insufficient token balance",
            CurveError::BelowMinimumBuy => "below minimum buy",
            CurveError::AboveMaximumBuy => "above maximum buy",
            CurveError::PlatformPaused => "platform paused",
            CurveError::TokenAlreadyGraduated => "token already graduated",
            CurveError::GraduationThresholdNotMet => "graduation threshold not met",
            CurveError::TokenAlreadyMigrated => "token already migrated",
        }
    }
}

} // verus!
