use vstd::prelude::*;
use crate::custody::{Pending, Route, Transfer};
use crate::error::StakingError;
use crate::instructions::user::stake::{stake_token_outcome, StakeToken};
use crate::state::{Global, Stake};

verus! {

/// What an unstake reads: the depositor's record, the pool record and the
/// number of decimals of the asset.
#[derive(Clone, Copy, Debug, PartialEq, Eq)]
pub struct UnstakeToken {
    pub stake: Stake,
    pub global: Global,
    pub decimals: u8,
}

/// The part of `amount` that is withdrawn: all of it, or the whole stake
/// where that is less.
pub open spec fn withdrawal_of(amount: u64, staked: u64) -> u64 {
    if amount <= staked {
        amount
    } else {
        staked
    }
}

/// What an unstake of `amount` at time `now` comes to.
///
/// The record is brought up to date first. A withdrawal of nothing is
/// refused, whether nothing was asked for or nothing is staked. The
/// withdrawal leaves the staked amount and the pool's total; a total smaller
/// than the withdrawal is an overflow.
pub open spec fn unstake_token_outcome(ctx: UnstakeToken, amount: u64, now: i64) -> Result<
    Pending,
    StakingError,
> {
    match ctx.stake.accrual_outcome(ctx.global, ctx.decimals, now) {
        Err(e) => Err(e),
        Ok(accrued) => {
            let withdrawal = withdrawal_of(amount, accrued.amount);
            if withdrawal == 0 {
                Err(StakingError::InvalidAmount)
            } else if ctx.global.amount < withdrawal {
                Err(StakingError::MathOverflow)
            } else {
                Ok(
                    Pending {
                        stake: Stake { amount: (accrued.amount - withdrawal) as u64, ..accrued },
                        global: Global {
                            amount: (ctx.global.amount - withdrawal) as u64,
                            ..ctx.global
                        },
                        transfer: Transfer { route: Route::Withdrawal, amount: withdrawal },
                    },
                )
            }
        },
    }
}

/// Round trip: a stake of `amount`, followed at the same moment by an unstake
/// of the same `amount`, puts the staked amount and the pool's total back
/// where they were, and returns exactly what was deposited.
///
/// This holds where the wallet covers the amount. Where it does not, the
/// deposit is cut down to the wallet's balance, and the unstake returns that
/// much only if it is not nothing and nothing else was staked.
pub proof fn stake_then_unstake_restores(ctx: StakeToken, amount: u64, now: i64)
    requires
        stake_token_outcome(ctx, amount, now) is Ok,
        amount <= ctx.user_balance || (ctx.stake.amount == 0 && ctx.user_balance > 0),
    ensures
        ({
            let staked = stake_token_outcome(ctx, amount, now)->Ok_0;
            let back = unstake_token_outcome(
                UnstakeToken { stake: staked.stake, global: staked.global, decimals: ctx.decimals },
                amount,
                now,
            );
            &&& back is Ok
            &&& back->Ok_0.stake.amount == ctx.stake.amount
            &&& back->Ok_0.global.amount == ctx.global.amount
            &&& back->Ok_0.transfer.amount == staked.transfer.amount
        }),
{
    let staked = stake_token_outcome(ctx, amount, now)->Ok_0;
    staked.stake.accrual_without_elapsed_time(staked.global, ctx.decimals);
}

/// Decides an unstake of `amount` at time `now`. Nothing is written: the
/// result holds the withdrawal to be moved and both records as they are to be
/// once it has been.
pub fn unstake_token_handler(ctx: &UnstakeToken, amount: u64, now: i64) -> (r: Result<
    Pending,
    StakingError,
>)
    ensures
        r == unstake_token_outcome(*ctx, amount, now),
{
    let mut stake: Stake = ctx.stake;
    match stake.update_unclaimed_amount(&ctx.global, ctx.decimals, now) {
        Ok(()) => {},
        Err(e) => {
            return Err(e);
        },
    }
    let unstake_amount: u64 = if amount <= stake.amount {
        amount
    } else {
        stake.amount
    };
    if unstake_amount == 0 {
        return Err(StakingError::InvalidAmount);
    }
    let total: u64 = match ctx.global.amount.checked_sub(unstake_amount) {
        Some(v) => v,
        None => {
            return Err(StakingError::MathOverflow);
        },
    };
    stake.amount = stake.amount - unstake_amount;
    Ok(
        Pending {
            stake,
            global: Global { amount: total, emission_rate: ctx.global.emission_rate },
            transfer: Transfer { route: Route::Withdrawal, amount: unstake_amount },
        },
    )
}

} // verus!
