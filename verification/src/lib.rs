//! Accounting core of a staking pool: deposits of a fungible asset, rewards
//! accrued at an emission rate set by the administrator, withdrawals of
//! principal and claims of accrued rewards.
//!
//! The core only keeps the books. Moving the asset, storing the records,
//! reading the clock and checking who signs are the host's business: each
//! operation takes what the host has read as plain values and returns the
//! records as they will be together with the transfer the host has to make.

pub mod constants;
pub mod error;
pub mod state;
pub mod custody;
pub mod instructions;
pub mod ledger;
