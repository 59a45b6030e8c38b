use vstd::prelude::*;
use crate::custody::{Pending, Route, Transfer};
use crate::error::StakingError;
use crate::state::{Global, Stake};

verus! {

/// What a claim reads: the depositor's record, the pool record, the number of
/// decimals of the asset, and the balance of the pool vault.
#[derive(Clone, Copy, Debug, PartialEq, Eq)]
pub struct ClaimToken {
    pub stake: Stake,
    pub global: Global,
    pub decimals: u8,
    pub vault_balance: u64,
}

/// What a claim at time `now` comes to.
///
/// The record is brought up to date first; the payout is all that is then
/// unclaimed. A payout of nothing is refused, and so is one that the vault
/// cannot cover. The payout moves from the unclaimed to the claimed balance,
/// which must stay in range. The pool record does not change.
pub open spec fn claim_token_outcome(ctx: ClaimToken, now: i64) -> Result<Pending, StakingError> {
    match ctx.stake.accrual_outcome(ctx.global, ctx.decimals, now) {
        Err(e) => Err(e),
        Ok(accrued) => {
            let payout = accrued.unclaimed_amount;
            if payout == 0 {
                Err(StakingError::InvalidAmount)
            } else if ctx.vault_balance < payout {
                Err(StakingError::InsufficientVaultBalance)
            } else if accrued.claimed_amount + payout > u64::MAX {
                Err(StakingError::MathOverflow)
            } else {
                Ok(
                    Pending {
                        stake: Stake {
                            claimed_amount: (accrued.claimed_amount + payout) as u64,
                            unclaimed_amount: 0,
                            ..accrued
                        },
                        global: ctx.global,
                        transfer: Transfer { route: Route::Reward, amount: payout },
                    },
                )
            }
        },
    }
}

/// Decides a claim at time `now`. Nothing is written: the result holds the
/// payout to be moved and the depositor's record as it is to be once it has
/// been.
pub fn claim_token_handler(ctx: &ClaimToken, now: i64) -> (r: Result<Pending, StakingError>)
    ensures
        r == claim_token_outcome(*ctx, now),
{
    let mut stake: Stake = ctx.stake;
    match stake.update_unclaimed_amount(&ctx.global, ctx.decimals, now) {
        Ok(()) => {},
        Err(e) => {
            return Err(e);
        },
    }
    let claim_amount: u64 = stake.unclaimed_amount;
    if claim_amount == 0 {
        return Err(StakingError::InvalidAmount);
    }
    if ctx.vault_balance < claim_amount {
        return Err(StakingError::InsufficientVaultBalance);
    }
    let claimed: u64 = match stake.claimed_amount.checked_add(claim_amount) {
        Some(v) => v,
        None => {
            return Err(StakingError::MathOverflow);
        },
    };
    stake.claimed_amount = claimed;
    stake.unclaimed_amount = stake.unclaimed_amount - claim_amount;
    Ok(
        Pending {
            stake,
            global: ctx.global,
            transfer: Transfer { route: Route::Reward, amount: claim_amount },
        },
    )
}

} // verus!
