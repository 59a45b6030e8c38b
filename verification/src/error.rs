use vstd::prelude::*;

verus! {

/// Every way an operation of the staking core can fail.
///
/// A failed operation leaves every record exactly as it was before the call.
#[derive(Clone, Copy, Debug, PartialEq, Eq, Structural)]
pub enum StakingError {
    /// The administrator asked for an emission rate of zero.
    InvalidEmissionRate,
    /// A stake of zero, an unstake that would withdraw nothing, or a claim
    /// with nothing accrued.
    InvalidAmount,
    /// The pool vault holds less than the reward that is being claimed.
    InsufficientVaultBalance,
    /// Checked arithmetic left its range during accrual or while updating a
    /// balance or total.
    MathOverflow,
    /// The current time lies before the time of the record's last update.
    ClockError,
}

} // verus!
