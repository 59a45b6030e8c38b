use vstd::prelude::*;
use anchor_lang::prelude::Pubkey;
use crate::custody::{Pending, Route, Transfer};
use crate::error::StakingError;
use crate::state::{Global, Stake};

verus! {

/// What a stake reads: the depositor's record as the record store found or
/// newly created it, the pool record, the depositor, the number of decimals
/// of the asset, and the balance of the depositor's wallet.
#[derive(Clone, Copy, Debug, PartialEq, Eq)]
pub struct StakeToken {
    pub stake: Stake,
    pub global: Global,
    pub user: Pubkey,
    pub decimals: u8,
    pub user_balance: u64,
}

/// The part of `amount` that is deposited: all of it, or what the wallet
/// holds where that is less.
pub open spec fn deposit_of(amount: u64, user_balance: u64) -> u64 {
    if amount <= user_balance {
        amount
    } else {
        user_balance
    }
}

/// What a stake of `amount` at time `now` comes to.
///
/// An amount of zero is refused. The record is bound to the depositor and
/// brought up to date; the deposit then joins the staked amount and the
/// pool's total, both of which must stay in range.
pub open spec fn stake_token_outcome(ctx: StakeToken, amount: u64, now: i64) -> Result<
    Pending,
    StakingError,
> {
    let bound = Stake { user: ctx.user, ..ctx.stake };
    let deposit = deposit_of(amount, ctx.user_balance);
    if amount == 0 {
        Err(StakingError::InvalidAmount)
    } else {
        match bound.accrual_outcome(ctx.global, ctx.decimals, now) {
            Err(e) => Err(e),
            Ok(accrued) => if accrued.amount + deposit > u64::MAX || ctx.global.amount + deposit
                > u64::MAX {
                Err(StakingError::MathOverflow)
            } else {
                Ok(
                    Pending {
                        stake: Stake { amount: (accrued.amount + deposit) as u64, ..accrued },
                        global: Global {
                            amount: (ctx.global.amount + deposit) as u64,
                            ..ctx.global
                        },
                        transfer: Transfer { route: Route::Deposit, amount: deposit },
                    },
                )
            },
        }
    }
}

/// Decides a stake of `amount` at time `now`. Nothing is written: the
/// result holds the deposit to be moved and both records as they are to be
/// once it has been.
pub fn stake_token_handler(ctx: &StakeToken, amount: u64, now: i64) -> (r: Result<
    Pending,
    StakingError,
>)
    ensures
        r == stake_token_outcome(*ctx, amount, now),
{
    if amount == 0 {
        return Err(StakingError::InvalidAmount);
    }
    let mut stake: Stake = ctx.stake;
    stake.user = ctx.user;
    match stake.update_unclaimed_amount(&ctx.global, ctx.decimals, now) {
        Ok(()) => {},
        Err(e) => {
            return Err(e);
        },
    }
    let stake_amount: u64 = if amount <= ctx.user_balance {
        amount
    } else {
        ctx.user_balance
    };
    let staked: u64 = match stake.amount.checked_add(stake_amount) {
        Some(v) => v,
        None => {
            return Err(StakingError::MathOverflow);
        },
    };
    let total: u64 = match ctx.global.amount.checked_add(stake_amount) {
        Some(v) => v,
        None => {
            return Err(StakingError::MathOverflow);
        },
    };
    stake.amount = staked;
    Ok(
        Pending {
            stake,
            global: Global { amount: total, emission_rate: ctx.global.emission_rate },
            transfer: Transfer { route: Route::Deposit, amount: stake_amount },
        },
    )
}

} // verus!
