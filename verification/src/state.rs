use vstd::prelude::*;
use vstd::arithmetic::div_mod::{lemma_div_is_ordered, lemma_div_of0, lemma_div_pos_is_pos};
use vstd::arithmetic::power::{pow, lemma_pow_increases, lemma_pow_positive};
use anchor_lang::prelude::Pubkey;
use crate::constants::{SCALE, SECONDS_PER_DAY};
use crate::error::StakingError;

verus! {

/// `anchor_lang::prelude::Pubkey`, the identity of a depositor. The core
/// stores and hands back such a value and never looks inside it.
#[verifier::external_type_specification]
#[verifier::external_body]
pub struct ExPubkey(Pubkey);

/// The pool-wide record. There is one per pool.
#[derive(Clone, Copy, Debug, PartialEq, Eq, Structural)]
pub struct Global {
    /// Total staked: the sum of `amount` over all stake records of the pool.
    pub amount: u64,
    /// Reward units accrued per staked unit per day, scaled by the asset's
    /// decimal factor. Positive once the administrator has set it.
    pub emission_rate: u64,
}

/// The record of one depositor.
#[derive(Clone, Copy, Debug, PartialEq, Eq)]
pub struct Stake {
    /// The depositor this record belongs to.
    pub user: Pubkey,
    /// Principal currently deposited.
    pub amount: u64,
    /// Reward accrued and not yet paid out.
    pub unclaimed_amount: u64,
    /// Reward paid out so far, over the record's whole life.
    pub claimed_amount: u64,
    /// Unix time in seconds through which accrual has been applied.
    pub updated_at: i64,
}

/// Ten to the power `decimals`: the number of base units in one token.
pub open spec fn token_units(decimals: u8) -> int {
    pow(10, decimals as nat)
}

/// The dividend of the accrual formula.
pub open spec fn accrual_numerator(staked: u64, rate: u64, elapsed: int) -> int {
    staked * rate * elapsed * SCALE
}

/// The divisor of the accrual formula. It is always positive.
pub open spec fn accrual_denominator(decimals: u8) -> int {
    token_units(decimals) * SECONDS_PER_DAY
}

/// The reward that `staked` units earn at `rate` over `elapsed` seconds,
/// rounded down.
pub open spec fn newly_accrued(staked: u64, rate: u64, elapsed: int, decimals: u8) -> int {
    accrual_numerator(staked, rate, elapsed) / accrual_denominator(decimals)
}

/// The divisor of the accrual formula is at least the number of seconds in a
/// day, whatever the number of decimals.
pub proof fn accrual_denominator_is_positive(decimals: u8)
    ensures
        accrual_denominator(decimals) >= SECONDS_PER_DAY > 0,
{
    lemma_pow_positive(10, decimals as nat);
}

/// Monotonicity of accrual: with the staked amount, the rate and the decimals
/// fixed, a longer time never earns less. In particular no time that has
/// passed earns a negative reward, and no time at all earns nothing.
pub proof fn newly_accrued_is_monotonic(
    staked: u64,
    rate: u64,
    decimals: u8,
    shorter: int,
    longer: int,
)
    requires
        0 <= shorter <= longer,
    ensures
        newly_accrued(staked, rate, 0, decimals) == 0,
        0 <= newly_accrued(staked, rate, shorter, decimals) <= newly_accrued(
            staked,
            rate,
            longer,
            decimals,
        ),
{
    accrual_denominator_is_positive(decimals);
    let den = accrual_denominator(decimals);
    assert(accrual_numerator(staked, rate, 0) == 0) by (nonlinear_arith);
    assert(0 <= accrual_numerator(staked, rate, shorter) <= accrual_numerator(
        staked,
        rate,
        longer,
    )) by (nonlinear_arith)
        requires
            0 <= shorter <= longer,
    ;
    lemma_div_of0(den);
    lemma_div_pos_is_pos(accrual_numerator(staked, rate, shorter), den);
    lemma_div_is_ordered(
        accrual_numerator(staked, rate, shorter),
        accrual_numerator(staked, rate, longer),
        den,
    );
}

/// Ten to the power `exponent`, or `None` where that does not fit.
fn checked_pow10(exponent: u8) -> (r: Option<u128>)
    ensures
        match r {
            Some(v) => v == token_units(exponent),
            None => token_units(exponent) > u128::MAX,
        },
{
    let mut value: u128 = 1;
    let mut i: u8 = 0;
    proof {
        vstd::arithmetic::power::lemma_pow0(10);
    }
    while i < exponent
        invariant
            i <= exponent,
            value == pow(10, i as nat),
        decreases exponent - i,
    {
        proof {
            vstd::arithmetic::power::lemma_pow1(10);
            vstd::arithmetic::power::lemma_pow_adds(10, i as nat, 1);
        }
        match value.checked_mul(10) {
            Some(v) => {
                value = v;
            },
            None => {
                proof {
                    lemma_pow_increases(10, (i + 1) as nat, exponent as nat);
                }
                return None;
            },
        }
        i += 1;
    }
    Some(value)
}

impl Global {
    /// The pool record as the record store first creates it: nothing staked,
    /// no rate set yet.
    pub open spec fn fresh() -> Global {
        Global { amount: 0, emission_rate: 0 }
    }

    /// Whether the administrator has set an emission rate.
    pub open spec fn is_initialized(self) -> bool {
        self.emission_rate > 0
    }
}

impl Stake {
    /// The record as the record store first creates it for `user`: nothing
    /// staked, nothing accrued, nothing claimed.
    pub open spec fn fresh(user: Pubkey) -> Stake {
        Stake { user, amount: 0, unclaimed_amount: 0, claimed_amount: 0, updated_at: 0 }
    }

    /// What the accrual step makes of this record at time `now`: the record
    /// brought up to date, or the error it fails with.
    ///
    /// The time must not lie before the last update. The reward for the
    /// seconds since then is `newly_accrued`; dividend and divisor must fit in
    /// 128 bits and the new unclaimed balance in 64.
    pub open spec fn accrual_outcome(self, global: Global, decimals: u8, now: i64) -> Result<
        Stake,
        StakingError,
    > {
        let elapsed = now - self.updated_at;
        let accrued = newly_accrued(self.amount, global.emission_rate, elapsed, decimals);
        if now < self.updated_at {
            Err(StakingError::ClockError)
        } else if accrual_numerator(self.amount, global.emission_rate, elapsed) > u128::MAX
            || accrual_denominator(decimals) > u128::MAX || self.unclaimed_amount + accrued
            > u64::MAX {
            Err(StakingError::MathOverflow)
        } else {
            Ok(
                Stake {
                    unclaimed_amount: (self.unclaimed_amount + accrued) as u64,
                    updated_at: now,
                    ..self
                },
            )
        }
    }

    /// An accrual that succeeds adds exactly the reward for the time since
    /// the last update to the unclaimed balance, which therefore never falls,
    /// moves the last update to `now`, and changes nothing else.
    pub proof fn accrual_only_adds(self, global: Global, decimals: u8, now: i64)
        requires
            self.accrual_outcome(global, decimals, now) is Ok,
        ensures
            ({
                let next = self.accrual_outcome(global, decimals, now)->Ok_0;
                &&& next.unclaimed_amount == self.unclaimed_amount + newly_accrued(
                    self.amount,
                    global.emission_rate,
                    now - self.updated_at,
                    decimals,
                )
                &&& next.unclaimed_amount >= self.unclaimed_amount
                &&& next.updated_at == now
                &&& next.claimed_amount == self.claimed_amount
                &&& next.amount == self.amount
                &&& next.user == self.user
            }),
    {
        let elapsed = now - self.updated_at;
        newly_accrued_is_monotonic(self.amount, global.emission_rate, decimals, elapsed, elapsed);
    }

    /// Idempotence of accrual: once a record has been brought up to date at
    /// `now`, accruing again at the same time succeeds and changes nothing,
    /// whatever the rate is by then.
    pub proof fn accrual_is_idempotent(
        self,
        global: Global,
        later_global: Global,
        decimals: u8,
        now: i64,
    )
        requires
            self.accrual_outcome(global, decimals, now) is Ok,
        ensures
            ({
                let next = self.accrual_outcome(global, decimals, now)->Ok_0;
                next.accrual_outcome(later_global, decimals, now) == Ok::<Stake, StakingError>(
                    next,
                )
            }),
    {
        let next = self.accrual_outcome(global, decimals, now)->Ok_0;
        newly_accrued_is_monotonic(next.amount, later_global.emission_rate, decimals, 0, 0);
    }

    /// Accrual over no time at all is a no-op on any record, as long as the
    /// divisor of the formula fits in 128 bits.
    pub proof fn accrual_without_elapsed_time(self, global: Global, decimals: u8)
        requires
            accrual_denominator(decimals) <= u128::MAX,
        ensures
            self.accrual_outcome(global, decimals, self.updated_at) == Ok::<Stake, StakingError>(
                self,
            ),
    {
        newly_accrued_is_monotonic(self.amount, global.emission_rate, decimals, 0, 0);
    }

    /// The accrual step: adds the reward earned since the last update to the
    /// unclaimed balance and moves the last update to `now`. On an error the
    /// record is left as it was.
    pub fn update_unclaimed_amount(&mut self, global: &Global, decimals: u8, now: i64) -> (r:
        Result<(), StakingError>)
        ensures
            match old(self).accrual_outcome(*global, decimals, now) {
                Ok(next) => r is Ok && *final(self) == next,
                Err(e) => r == Err::<(), StakingError>(e) && *final(self) == *old(self),
            },
    {
        if now < self.updated_at {
            return Err(StakingError::ClockError);
        }
        let staked_duration: u128 = (now as i128 - self.updated_at as i128) as u128;
        let rate: u128 = global.emission_rate as u128;
        let amount: u128 = self.amount as u128;
        proof {
            lemma_pow_positive(10, decimals as nat);
            assert(amount * rate <= u128::MAX) by (nonlinear_arith)
                requires
                    amount <= u64::MAX,
                    rate <= u64::MAX,
            ;
        }
        let num1: u128 = amount * rate;
        let num2: u128 = match num1.checked_mul(staked_duration) {
            Some(v) => v,
            None => {
                return Err(StakingError::MathOverflow);
            },
        };
        let num3: u128 = match num2.checked_mul(SCALE) {
            Some(v) => v,
            None => {
                return Err(StakingError::MathOverflow);
            },
        };
        let units: u128 = match checked_pow10(decimals) {
            Some(v) => v,
            None => {
                return Err(StakingError::MathOverflow);
            },
        };
        let den1: u128 = match units.checked_mul(SECONDS_PER_DAY) {
            Some(v) => v,
            None => {
                return Err(StakingError::MathOverflow);
            },
        };
        let newly_unclaimed: u128 = num3 / den1;
        if newly_unclaimed > u64::MAX as u128 {
            return Err(StakingError::MathOverflow);
        }
        match self.unclaimed_amount.checked_add(newly_unclaimed as u64) {
            Some(total) => {
                self.unclaimed_amount = total;
                self.updated_at = now;
                Ok(())
            },
            None => Err(StakingError::MathOverflow),
        }
    }
}

} // verus!
