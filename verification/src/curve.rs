//! The reserve data model of one launched token and its lifecycle.
//!
//! A curve prices trades against virtual reserves (synthetic liquidity that
//! seeds the price) while real reserves track what the curve actually
//! custodies. The real side never exceeds the virtual side, and both virtual
//! reserves stay positive, so the pricing formula is always defined.

use vstd::prelude::*;

use crate::errors::CurveError;

verus! {

/// Lifecycle of a curve. Trading is possible only while `Active`; the two
/// later states are terminal for trading and are never left backwards.
#[derive(Clone, Copy, Debug, PartialEq, Eq, Structural)]
pub enum CompletionState {
    /// Buys and sells are accepted.
    Active,
    /// The graduation threshold was crossed; trading has ended and the curve
    /// waits for its liquidity to move to an external venue.
    Graduating,
    /// Liquidity has moved to the external venue; nothing further happens.
    Migrated,
}

/// Reserve state of one launched token.
#[derive(Clone, Copy, Debug, PartialEq, Eq, Structural)]
pub struct CurveState {
    /// Synthetic token-side liquidity; decreases on buys, grows on sells.
    pub virtual_token_reserves: u64,
    /// Synthetic SOL-side liquidity; grows on buys, decreases on sells.
    pub virtual_sol_reserves: u64,
    /// Tokens the curve actually holds and can still sell to buyers.
    pub real_token_reserves: u64,
    /// SOL the curve actually holds, backing redemptions.
    pub real_sol_reserves: u64,
    /// Tokens minted for this curve.
    pub total_supply: u64,
    /// Where the curve stands in its lifecycle.
    pub completion_state: CompletionState,
    /// When the curve was created.
    pub creation_timestamp: i64,
    /// When the curve last traded; never decreases.
    pub last_trade_timestamp: i64,
}

impl CurveState {
    /// The invariant every operation preserves: virtual reserves stay
    /// positive (the pricing formula divides by them) and real reserves
    /// never exceed their virtual counterparts.
    pub open spec fn wf(self) -> bool {
        &&& self.virtual_token_reserves >= 1
        &&& self.virtual_sol_reserves >= 1
        &&& self.real_token_reserves <= self.virtual_token_reserves
        &&& self.real_sol_reserves <= self.virtual_sol_reserves
        &&& self.creation_timestamp <= self.last_trade_timestamp
    }

    /// Whether trades are still accepted.
    pub fn is_active(&self) -> (r: bool)
        ensures
            r == (self.completion_state is Active),
    {
        match self.completion_state {
            CompletionState::Active => true,
            _ => false,
        }
    }

    /// Creates the curve for a newly launched token.
    ///
    /// The whole initial supply is minted into the curve's custody, so the
    /// real token reserve starts at the initial supply and the real SOL
    /// reserve at zero. Rejects a zero virtual reserve (`InvalidReserves`),
    /// a zero initial supply (`InvalidSupply`), and a supply above the
    /// virtual token reserve (`InvalidReserves`), which would break the
    /// reserve invariant before the first trade.
    pub fn new(
        virtual_token_reserves: u64,
        virtual_sol_reserves: u64,
        initial_supply: u64,
        now: i64,
    ) -> (r: Result<CurveState, CurveError>)
        ensures
            (virtual_token_reserves == 0 || virtual_sol_reserves == 0) ==> r == Err::<
                CurveState,
                CurveError,
            >(CurveError::InvalidReserves),
            (virtual_token_reserves >= 1 && virtual_sol_reserves >= 1 && initial_supply == 0)
                ==> r == Err::<CurveState, CurveError>(CurveError::InvalidSupply),
            (virtual_token_reserves >= 1 && virtual_sol_reserves >= 1 && initial_supply >= 1
                && initial_supply > virtual_token_reserves) ==> r == Err::<
                CurveState,
                CurveError,
            >(CurveError::InvalidReserves),
            (virtual_token_reserves >= 1 && virtual_sol_reserves >= 1 && 1 <= initial_supply
                <= virtual_token_reserves) ==> r == Ok::<CurveState, CurveError>(
                CurveState {
                    virtual_token_reserves,
                    virtual_sol_reserves,
                    real_token_reserves: initial_supply,
                    real_sol_reserves: 0,
                    total_supply: initial_supply,
                    completion_state: CompletionState::Active,
                    creation_timestamp: now,
                    last_trade_timestamp: now,
                },
            ),
            r matches Ok(c) ==> c.wf(),
    {
        if virtual_token_reserves == 0 || virtual_sol_reserves == 0 {
            return Err(CurveError::InvalidReserves);
        }
        if initial_supply == 0 {
            return Err(CurveError::InvalidSupply);
        }
        if initial_supply > virtual_token_reserves {
            return Err(CurveError::InvalidReserves);
        }
        Ok(
            CurveState {
                virtual_token_reserves,
                virtual_sol_reserves,
                real_token_reserves: initial_supply,
                real_sol_reserves: 0,
                total_supply: initial_supply,
                completion_state: CompletionState::Active,
                creation_timestamp: now,
                last_trade_timestamp: now,
            },
        )
    }

    /// Marks an active curve as graduating once it has raised at least
    /// `graduation_threshold` of real SOL.
    ///
    /// Fails with `TokenAlreadyGraduated` when the curve already left
    /// `Active`, and with `GraduationThresholdNotMet` while the raised SOL
    /// is still below the threshold. Reserves never change here.
    pub fn complete(&mut self, graduation_threshold: u64) -> (r: Result<(), CurveError>)
        requires
            old(self).wf(),
        ensures
            final(self).wf(),
            !(old(self).completion_state is Active) ==> r == Err::<(), CurveError>(
                CurveError::TokenAlreadyGraduated,
            ) && *final(self) == *old(self),
            old(self).completion_state is Active && old(self).real_sol_reserves
                < graduation_threshold ==> r == Err::<(), CurveError>(
                CurveError::GraduationThresholdNotMet,
            ) && *final(self) == *old(self),
            old(self).completion_state is Active && old(self).real_sol_reserves
                >= graduation_threshold ==> r == Ok::<(), CurveError>(()) && *final(self) == (
            CurveState { completion_state: CompletionState::Graduating, ..*old(self) }),
    {
        if !self.is_active() {
            return Err(CurveError::TokenAlreadyGraduated);
        }
        if self.real_sol_reserves < graduation_threshold {
            return Err(CurveError::GraduationThresholdNotMet);
        }
        self.completion_state = CompletionState::Graduating;
        Ok(())
    }

    /// Moves a graduating curve to `Migrated` once the external liquidity
    /// venue has consumed its final reserve snapshot.
    ///
    /// Only `Graduating -> Migrated` is possible: an active curve fails with
    /// `GraduationThresholdNotMet` and a migrated one with
    /// `TokenAlreadyMigrated`. No state ever returns to `Active`.
    pub fn migrate(&mut self) -> (r: Result<(), CurveError>)
        requires
            old(self).wf(),
        ensures
            final(self).wf(),
            old(self).completion_state is Active ==> r == Err::<(), CurveError>(
                CurveError::GraduationThresholdNotMet,
            ) && *final(self) == *old(self),
            old(self).completion_state is Migrated ==> r == Err::<(), CurveError>(
                CurveError::TokenAlreadyMigrated,
            ) && *final(self) == *old(self),
            old(self).completion_state is Graduating ==> r == Ok::<(), CurveError>(())
                && *final(self) == (CurveState {
                completion_state: CompletionState::Migrated,
                ..*old(self)
            }),
    {
        match self.completion_state {
            CompletionState::Active => Err(CurveError::GraduationThresholdNotMet),
            CompletionState::Migrated => Err(CurveError::TokenAlreadyMigrated),
            CompletionState::Graduating => {
                self.completion_state = CompletionState::Migrated;
                Ok(())
            },
        }
    }
}

} // verus!
