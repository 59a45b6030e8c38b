use anchor_lang::prelude::Pubkey;
use blackduck_staking::custody::{Route, Transfer};
use blackduck_staking::error::StakingError;
use blackduck_staking::instructions::admin::set_params::{set_params_handler, SetParams};
use blackduck_staking::instructions::user::claim::{claim_token_handler, ClaimToken};
use blackduck_staking::instructions::user::stake::{stake_token_handler, StakeToken};
use blackduck_staking::instructions::user::unstake::{unstake_token_handler, UnstakeToken};
use blackduck_staking::state::{Global, Stake};

fn carol() -> Pubkey {
    Pubkey::new_from_array([3u8; 32])
}

fn empty_record() -> Stake {
    Stake { user: carol(), amount: 0, unclaimed_amount: 0, claimed_amount: 0, updated_at: 0 }
}

#[test]
fn one_day_at_a_rate_of_86_400_000_000_with_six_decimals() {
    let mut global = Global { amount: 0, emission_rate: 86_400_000_000 };
    let mut stake = empty_record();
    let start = 1_700_000_000;
    let pending = stake_token_handler(
        &StakeToken { stake, global, user: carol(), decimals: 6, user_balance: 1_000_000 },
        1_000_000,
        start,
    )
    .unwrap();
    assert!(pending.settle(&mut stake, &mut global, true));
    assert_eq!(stake.amount, 1_000_000);
    assert_eq!(stake.unclaimed_amount, 0);

    assert_eq!(stake.update_unclaimed_amount(&global, 6, start + 86_400), Ok(()));
    // 1_000_000 * 86_400_000_000 * 86_400 * 1_000_000 / (10^6 * 86_400)
    assert_eq!(stake.unclaimed_amount, 86_400_000_000_000_000);
}

#[test]
fn one_day_at_a_rate_of_one_with_six_decimals_earns_the_stake() {
    let global = Global { amount: 1_000_000, emission_rate: 1 };
    let mut stake = Stake { amount: 1_000_000, updated_at: 1_700_000_000, ..empty_record() };
    assert_eq!(stake.update_unclaimed_amount(&global, 6, 1_700_086_400), Ok(()));
    assert_eq!(stake.unclaimed_amount, 1_000_000);
}

#[test]
fn claim_with_nothing_unclaimed_is_refused() {
    let ctx = ClaimToken {
        stake: Stake { amount: 0, claimed_amount: 12, updated_at: 50, ..empty_record() },
        global: Global { amount: 0, emission_rate: 5 },
        decimals: 6,
        vault_balance: 1_000,
    };
    let before = ctx;
    assert_eq!(claim_token_handler(&ctx, 86_450), Err(StakingError::InvalidAmount));
    assert_eq!(ctx, before);

    // a stake too small to have earned a whole unit has nothing to claim either
    let ctx = ClaimToken { stake: Stake { amount: 1, ..ctx.stake }, ..ctx };
    let ctx = ClaimToken { global: Global { amount: 1, emission_rate: 1 }, ..ctx };
    assert_eq!(claim_token_handler(&ctx, 60), Err(StakingError::InvalidAmount));
}

#[test]
fn unstake_of_more_than_is_staked_drains_the_record() {
    let ctx = UnstakeToken {
        stake: Stake { amount: 750, unclaimed_amount: 4, ..empty_record() },
        global: Global { amount: 2_000, emission_rate: 1 },
        decimals: 6,
    };
    let pending = unstake_token_handler(&ctx, 751, 0).unwrap();
    assert_eq!(pending.transfer, Transfer { route: Route::Withdrawal, amount: 750 });
    assert_eq!(pending.stake.amount, 0);
    assert_eq!(pending.stake.unclaimed_amount, 4);
    assert_eq!(pending.global.amount, 1_250);

    let pending = unstake_token_handler(&ctx, u64::MAX, 0).unwrap();
    assert_eq!(pending.transfer.amount, 750);
    assert_eq!(pending.stake.amount, 0);
}

#[test]
fn a_rate_of_zero_is_refused_and_the_old_rate_stays() {
    let mut ctx = SetParams { global: Global { amount: 31, emission_rate: 86_400 } };
    assert_eq!(set_params_handler(&mut ctx, 0), Err(StakingError::InvalidEmissionRate));
    assert_eq!(ctx.global.emission_rate, 86_400);
    assert_eq!(ctx.global.amount, 31);
}

#[test]
fn claim_beyond_the_vault_is_refused_and_the_reward_stays() {
    let global = Global { amount: 1_000_000, emission_rate: 1 };
    let mut stake = Stake { amount: 1_000_000, unclaimed_amount: 5, ..empty_record() };
    assert_eq!(stake.update_unclaimed_amount(&global, 6, 86_400), Ok(()));
    assert_eq!(stake.unclaimed_amount, 1_000_005);

    let ctx = ClaimToken { stake, global, decimals: 6, vault_balance: 1_000_004 };
    assert_eq!(claim_token_handler(&ctx, 86_400), Err(StakingError::InsufficientVaultBalance));
    assert_eq!(ctx.stake.unclaimed_amount, 1_000_005);
    assert_eq!(ctx.stake.claimed_amount, 0);
    assert_eq!(ctx.stake, stake);

    // the same claim goes through once the vault covers it
    let ctx = ClaimToken { vault_balance: 1_000_005, ..ctx };
    let pending = claim_token_handler(&ctx, 86_400).unwrap();
    assert_eq!(pending.transfer, Transfer { route: Route::Reward, amount: 1_000_005 });
    assert_eq!(pending.stake.claimed_amount, 1_000_005);
    assert_eq!(pending.stake.unclaimed_amount, 0);
}

#[test]
fn claim_beyond_the_vault_counts_what_has_accrued_since() {
    // 5 unclaimed on record, a further 1_000_000 accrued by the time of the claim
    let ctx = ClaimToken {
        stake: Stake { amount: 1_000_000, unclaimed_amount: 5, ..empty_record() },
        global: Global { amount: 1_000_000, emission_rate: 1 },
        decimals: 6,
        vault_balance: 1_000_004,
    };
    assert_eq!(claim_token_handler(&ctx, 86_400), Err(StakingError::InsufficientVaultBalance));
    // the vault would have covered what was on record
    assert_eq!(claim_token_handler(&ctx, 0).unwrap().transfer.amount, 5);
}
