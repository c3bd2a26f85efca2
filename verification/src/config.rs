//! Platform configuration shared by every curve.
//!
//! Trades read a consistent snapshot of this configuration; only an
//! administrator (authorized by the host) updates it. The engine treats it
//! as an explicit argument, never as ambient global state.

use vstd::prelude::*;

use crate::errors::CurveError;
use crate::fee::MAX_FEE_BASIS_POINTS;

verus! {

/// Platform-wide trading rules: the fee rate, the pause flag, per-buy
/// bounds, the graduation threshold, and the virtual reserves every new
/// curve starts from.
#[derive(Clone, Copy, Debug, PartialEq, Eq, Structural)]
pub struct PlatformConfig {
    /// Fee taken on the gross SOL amount of every trade, in basis points.
    pub fee_basis_points: u16,
    /// While set, every trade fails with `PlatformPaused`.
    pub paused: bool,
    /// Smallest gross SOL amount a buy may bring.
    pub min_buy_amount: u64,
    /// Largest gross SOL amount a buy may bring.
    pub max_buy_amount: u64,
    /// Real SOL a curve must raise before it graduates.
    pub graduation_threshold: u64,
    /// Virtual token reserve each new curve starts with.
    pub initial_virtual_token_reserves: u64,
    /// Virtual SOL reserve each new curve starts with.
    pub initial_virtual_sol_reserves: u64,
}

impl PlatformConfig {
    /// What construction establishes and updates preserve: the fee rate is
    /// capped at 10% and the buy bounds are ordered, so fee math never
    /// consumes the whole gross amount and some buy size is always legal.
    pub open spec fn wf(self) -> bool {
        &&& self.fee_basis_points <= MAX_FEE_BASIS_POINTS
        &&& self.min_buy_amount <= self.max_buy_amount
        &&& self.initial_virtual_token_reserves >= 1
        &&& self.initial_virtual_sol_reserves >= 1
    }

    /// Creates the platform configuration, unpaused.
    ///
    /// Rejects a fee rate above 1000 basis points (`InvalidFeeRate`) at
    /// configuration time rather than at trade time, a zero initial virtual
    /// reserve (`InvalidReserves`), and buy bounds in the wrong order
    /// (`InvalidTradeLimits`).
    pub fn new(
        fee_basis_points: u16,
        min_buy_amount: u64,
        max_buy_amount: u64,
        graduation_threshold: u64,
        initial_virtual_token_reserves: u64,
        initial_virtual_sol_reserves: u64,
    ) -> (r: Result<PlatformConfig, CurveError>)
        ensures
            fee_basis_points > MAX_FEE_BASIS_POINTS ==> r == Err::<PlatformConfig, CurveError>(
                CurveError::InvalidFeeRate,
            ),
            fee_basis_points <= MAX_FEE_BASIS_POINTS && (initial_virtual_token_reserves == 0
                || initial_virtual_sol_reserves == 0) ==> r == Err::<PlatformConfig, CurveError>(
                CurveError::InvalidReserves,
            ),
            fee_basis_points <= MAX_FEE_BASIS_POINTS && initial_virtual_token_reserves >= 1
                && initial_virtual_sol_reserves >= 1 && min_buy_amount > max_buy_amount ==> r
                == Err::<PlatformConfig, CurveError>(CurveError::InvalidTradeLimits),
            fee_basis_points <= MAX_FEE_BASIS_POINTS && initial_virtual_token_reserves >= 1
                && initial_virtual_sol_reserves >= 1 && min_buy_amount <= max_buy_amount ==> r
                == Ok::<PlatformConfig, CurveError>(
                PlatformConfig {
                    fee_basis_points,
                    paused: false,
                    min_buy_amount,
                    max_buy_amount,
                    graduation_threshold,
                    initial_virtual_token_reserves,
                    initial_virtual_sol_reserves,
                },
            ),
            r matches Ok(c) ==> c.wf(),
    {
        if fee_basis_points > MAX_FEE_BASIS_POINTS {
            return Err(CurveError::InvalidFeeRate);
        }
        if initial_virtual_token_reserves == 0 || initial_virtual_sol_reserves == 0 {
            return Err(CurveError::InvalidReserves);
        }
        if min_buy_amount > max_buy_amount {
            return Err(CurveError::InvalidTradeLimits);
        }
        Ok(
            PlatformConfig {
                fee_basis_points,
                paused: false,
                min_buy_amount,
                max_buy_amount,
                graduation_threshold,
                initial_virtual_token_reserves,
                initial_virtual_sol_reserves,
            },
        )
    }

    /// Applies an administrative update: a new fee rate, a new pause flag,
    /// or both.
    ///
    /// A fee rate above 1000 basis points is rejected whole with
    /// `InvalidFeeRate`: neither field changes. Otherwise the given fields
    /// are replaced and the rest of the configuration is untouched.
    pub fn update(&mut self, fee_basis_points: Option<u16>, paused: Option<bool>) -> (r: Result<
        (),
        CurveError,
    >)
        requires
            old(self).wf(),
        ensures
            final(self).wf(),
            (fee_basis_points matches Some(f) && f > MAX_FEE_BASIS_POINTS) ==> r == Err::<
                (),
                CurveError,
            >(CurveError::InvalidFeeRate) && *final(self) == *old(self),
            (fee_basis_points matches Some(f) ==> f <= MAX_FEE_BASIS_POINTS) ==> r == Ok::<
                (),
                CurveError,
            >(()) && *final(self) == (PlatformConfig {
                fee_basis_points: match fee_basis_points {
                    Some(f) => f,
                    None => old(self).fee_basis_points,
                },
                paused: match paused {
                    Some(p) => p,
                    None => old(self).paused,
                },
                ..*old(self)
            }),
    {
        if let Some(f) = fee_basis_points {
            if f > MAX_FEE_BASIS_POINTS {
                return Err(CurveError::InvalidFeeRate);
            }
            self.fee_basis_points = f;
        }
        if let Some(p) = paused {
            self.paused = p;
        }
        Ok(())
    }
}

} // verus!
