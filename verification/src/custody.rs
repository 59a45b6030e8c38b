use vstd::prelude::*;
use crate::state::{Global, Stake};

verus! {

/// The way the asset is to move, and on whose authority.
#[derive(Clone, Copy, Debug, PartialEq, Eq, Structural)]
pub enum Route {
    /// From the depositor's wallet into the pool's custody, signed by the
    /// depositor.
    Deposit,
    /// From the pool's custody back to the depositor's wallet, signed by the
    /// stake record's own authority.
    Withdrawal,
    /// From the pool vault to the depositor's wallet, signed by the pool's
    /// authority.
    Reward,
}

/// A transfer for the custody service to make. It either moves the whole
/// amount or nothing.
#[derive(Clone, Copy, Debug, PartialEq, Eq, Structural)]
pub struct Transfer {
    pub route: Route,
    pub amount: u64,
}

/// What an operation has decided: the transfer to make, and the records as
/// they are to be written once the transfer has gone through.
#[derive(Clone, Copy, Debug, PartialEq, Eq)]
pub struct Pending {
    pub stake: Stake,
    pub global: Global,
    pub transfer: Transfer,
}

impl Pending {
    /// Closes an operation once the custody service has answered: writes the
    /// decided records if the transfer was made, and leaves both records
    /// untouched if it was refused. Returns whether the records were written.
    pub fn settle(&self, stake: &mut Stake, global: &mut Global, transferred: bool) -> (committed:
        bool)
        ensures
            committed == transferred,
            transferred ==> *final(stake) == self.stake && *final(global) == self.global,
            !transferred ==> *final(stake) == *old(stake) && *final(global) == *old(global),
    {
        if transferred {
            *stake = self.stake;
            *global = self.global;
        }
        transferred
    }
}

} // verus!
