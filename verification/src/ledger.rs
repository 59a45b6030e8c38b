use vstd::prelude::*;
use anchor_lang::prelude::Pubkey;
use crate::instructions::admin::set_params::{set_params_outcome, SetParams};
use crate::instructions::user::claim::{claim_token_outcome, ClaimToken};
use crate::instructions::user::stake::{stake_token_outcome, StakeToken};
use crate::instructions::user::unstake::{unstake_token_outcome, UnstakeToken};
use crate::custody::Pending;
use crate::state::{Global, Stake};

verus! {

/// The books of one pool as a whole: the pool record, the record of every
/// depositor who has one, and the number of decimals of the pool's asset.
///
/// The core never holds such a value; the record store does. It exists to say
/// what holds of all records together, whatever operations have run.
pub struct Ledger {
    pub global: Global,
    pub accounts: Map<Pubkey, Stake>,
    pub decimals: u8,
}

/// One request to the pool, with what the host has read for it.
pub enum Operation {
    SetParams { emission_rate: u64 },
    Stake { user: Pubkey, amount: u64, user_balance: u64 },
    Unstake { user: Pubkey, amount: u64 },
    Claim { user: Pubkey, vault_balance: u64 },
}

impl Operation {
    /// The depositor whose record the operation works on, if it works on one.
    pub open spec fn depositor(self) -> Option<Pubkey> {
        match self {
            Operation::SetParams { .. } => None,
            Operation::Stake { user, .. } => Some(user),
            Operation::Unstake { user, .. } => Some(user),
            Operation::Claim { user, .. } => Some(user),
        }
    }
}

/// The sum of the staked amounts of all records in `accounts`.
pub open spec fn total_staked(accounts: Map<Pubkey, Stake>) -> nat
    decreases accounts.dom().len(),
    when accounts.dom().finite()
{
    if accounts.dom().len() == 0 {
        0
    } else {
        let user = accounts.dom().choose();
        accounts[user].amount as nat + total_staked(accounts.remove(user))
    }
}

/// The sum of staked amounts can be taken with any one record first.
proof fn total_staked_splits(accounts: Map<Pubkey, Stake>, user: Pubkey)
    requires
        accounts.dom().finite(),
        accounts.dom().contains(user),
    ensures
        total_staked(accounts) == accounts[user].amount + total_staked(accounts.remove(user)),
    decreases accounts.dom().len(),
{
    let first = accounts.dom().choose();
    if first != user {
        total_staked_splits(accounts.remove(first), user);
        total_staked_splits(accounts.remove(user), first);
        assert(accounts.remove(first).remove(user) =~= accounts.remove(user).remove(first));
    }
}

/// Writing one record changes the sum of staked amounts by the difference
/// between what the depositor had staked before, if anything, and has staked
/// now.
proof fn total_staked_after_write(accounts: Map<Pubkey, Stake>, user: Pubkey, record: Stake)
    requires
        accounts.dom().finite(),
    ensures
        total_staked(accounts.insert(user, record)) == total_staked(accounts) + record.amount - (
        if accounts.dom().contains(user) {
            accounts[user].amount
        } else {
            0
        }),
{
    let written = accounts.insert(user, record);
    total_staked_splits(written, user);
    assert(written.remove(user) =~= accounts.remove(user));
    if accounts.dom().contains(user) {
        total_staked_splits(accounts, user);
    } else {
        assert(accounts.remove(user) =~= accounts);
    }
}

impl Ledger {
    /// The books of a pool before anything has happened.
    pub open spec fn fresh(decimals: u8) -> Ledger {
        Ledger { global: Global::fresh(), accounts: Map::empty(), decimals }
    }

    /// The record of `user` as the record store hands it out: the one it
    /// holds, or a fresh one.
    pub open spec fn record_of(self, user: Pubkey) -> Stake {
        if self.accounts.dom().contains(user) {
            self.accounts[user]
        } else {
            Stake::fresh(user)
        }
    }

    /// The books are balanced: the pool's total is the sum of what the
    /// depositors have staked, and every record is kept under its owner.
    pub open spec fn balanced(self) -> bool {
        &&& self.accounts.dom().finite()
        &&& self.global.amount == total_staked(self.accounts)
        &&& forall|user: Pubkey| #[trigger]
            self.accounts.dom().contains(user) ==> self.accounts[user].user == user
    }

    /// What `op` decides at time `now`, if it decides for a transfer. An
    /// unstake or a claim by someone who has no record is not decided at all.
    pub open spec fn decision(self, op: Operation, now: i64) -> Option<(Pubkey, Pending)> {
        match op {
            Operation::SetParams { .. } => None,
            Operation::Stake { user, amount, user_balance } => match stake_token_outcome(
                StakeToken {
                    stake: self.record_of(user),
                    global: self.global,
                    user,
                    decimals: self.decimals,
                    user_balance,
                },
                amount,
                now,
            ) {
                Ok(pending) => Some((user, pending)),
                Err(_) => None,
            },
            Operation::Unstake { user, amount } => match unstake_token_outcome(
                UnstakeToken {
                    stake: self.record_of(user),
                    global: self.global,
                    decimals: self.decimals,
                },
                amount,
                now,
            ) {
                Ok(pending) if self.accounts.dom().contains(user) => Some((user, pending)),
                _ => None,
            },
            Operation::Claim { user, vault_balance } => match claim_token_outcome(
                ClaimToken {
                    stake: self.record_of(user),
                    global: self.global,
                    decimals: self.decimals,
                    vault_balance,
                },
                now,
            ) {
                Ok(pending) if self.accounts.dom().contains(user) => Some((user, pending)),
                _ => None,
            },
        }
    }

    /// The books after `op` has run at time `now`, where `transferred` says
    /// whether the custody service made the transfer that was decided. An
    /// operation that fails, or whose transfer is refused, leaves the books
    /// as they were.
    pub open spec fn step(self, op: Operation, now: i64, transferred: bool) -> Ledger {
        match op {
            Operation::SetParams { emission_rate } => match set_params_outcome(
                SetParams { global: self.global },
                emission_rate,
            ) {
                Ok(global) => Ledger { global, ..self },
                Err(_) => self,
            },
            _ => match self.decision(op, now) {
                Some((user, pending)) if transferred => Ledger {
                    global: pending.global,
                    accounts: self.accounts.insert(user, pending.stake),
                    ..self
                },
                _ => self,
            },
        }
    }

    /// Whether `op` pays a reward out to `user`: a claim of theirs that
    /// succeeds and whose transfer is made.
    pub open spec fn pays_out_to(self, op: Operation, now: i64, transferred: bool, user: Pubkey) -> bool {
        &&& op matches Operation::Claim { user: claimant, .. }
        &&& claimant == user
        &&& transferred
        &&& self.decision(op, now) is Some
    }

    /// The books of a pool are balanced before anything has happened.
    pub proof fn fresh_is_balanced(decimals: u8)
        ensures
            Ledger::fresh(decimals).balanced(),
    {
    }

    /// The pool's total equals the sum of the staked amounts at all times:
    /// no operation, whether it succeeds, fails or has its transfer refused,
    /// takes balanced books out of balance.
    pub proof fn step_keeps_balance(self, op: Operation, now: i64, transferred: bool)
        requires
            self.balanced(),
        ensures
            self.step(op, now, transferred).balanced(),
    {
        if let Some((user, pending)) = self.decision(op, now) {
            total_staked_after_write(self.accounts, user, pending.stake);
        }
    }

    /// An operation writes nothing but what is its own. The record of every
    /// other depositor stays as it is, and no record is ever dropped. The
    /// emission rate changes only when the administrator sets it, and once
    /// set it stays positive. Setting the rate leaves the total and all
    /// records alone, and a claim leaves the pool record alone.
    pub proof fn step_writes_only_its_own(
        self,
        op: Operation,
        now: i64,
        transferred: bool,
        user: Pubkey,
    )
        ensures
            ({
                let next = self.step(op, now, transferred);
                &&& next.decimals == self.decimals
                &&& op.depositor() != Some(user) ==> next.record_of(user) == self.record_of(user)
                &&& self.accounts.dom().contains(user) ==> next.accounts.dom().contains(user)
                &&& !(op is SetParams) ==> next.global.emission_rate == self.global.emission_rate
                &&& self.global.is_initialized() ==> next.global.is_initialized()
                &&& op is SetParams ==> next.accounts == self.accounts && next.global.amount
                    == self.global.amount
                &&& op is Claim ==> next.global == self.global
            }),
    {
    }

    /// A record stays with its owner: in balanced books no operation changes
    /// the owner of a record that exists, and a record that a stake creates
    /// belongs to the depositor who staked.
    pub proof fn step_keeps_owners(
        self,
        op: Operation,
        now: i64,
        transferred: bool,
        user: Pubkey,
    )
        requires
            self.balanced(),
        ensures
            ({
                let next = self.step(op, now, transferred);
                &&& self.accounts.dom().contains(user) ==> next.accounts[user].user
                    == self.accounts[user].user
                &&& next.accounts.dom().contains(user) ==> next.accounts[user].user == user
            }),
    {
        self.step_keeps_balance(op, now, transferred);
    }

    /// Rewards are never taken back. Over any operation the claimed balance
    /// of every depositor stays or grows, and so does the unclaimed balance,
    /// except that of a depositor to whom the operation pays out.
    pub proof fn step_never_lowers_rewards(
        self,
        op: Operation,
        now: i64,
        transferred: bool,
        user: Pubkey,
    )
        ensures
            self.step(op, now, transferred).record_of(user).claimed_amount >= self.record_of(
                user,
            ).claimed_amount,
            !self.pays_out_to(op, now, transferred, user) ==> self.step(
                op,
                now,
                transferred,
            ).record_of(user).unclaimed_amount >= self.record_of(user).unclaimed_amount,
    {
        match self.decision(op, now) {
            Some((actor, pending)) => {
                let before = self.record_of(actor);
                match op {
                    Operation::Stake { .. } => {
                        let bound = Stake { user: actor, ..before };
                        bound.accrual_only_adds(self.global, self.decimals, now);
                    },
                    _ => {
                        before.accrual_only_adds(self.global, self.decimals, now);
                    },
                }
            },
            None => {},
        }
    }

    /// A payout moves exactly the paid amount from the unclaimed to the
    /// claimed balance: the claimed balance grows by it, and the unclaimed
    /// balance, brought up to date at `now`, falls by it.
    pub proof fn payout_moves_reward(self, op: Operation, now: i64, user: Pubkey)
        requires
            self.pays_out_to(op, now, true, user),
        ensures
            ({
                let before = self.record_of(user);
                let after = self.step(op, now, true).record_of(user);
                let payout = self.decision(op, now)->Some_0.1.transfer.amount;
                let accrued = before.accrual_outcome(self.global, self.decimals, now);
                &&& accrued is Ok
                &&& payout > 0
                &&& after.claimed_amount == before.claimed_amount + payout
                &&& after.unclaimed_amount == accrued->Ok_0.unclaimed_amount - payout
                &&& accrued->Ok_0.unclaimed_amount >= before.unclaimed_amount
            }),
    {
        self.record_of(user).accrual_only_adds(self.global, self.decimals, now);
    }
}

} // verus!
