use vstd::prelude::*;

verus! {

/// Fixed-point precision scale of the accrual formula.
pub const SCALE: u128 = 1_000_000;

/// Length in seconds of the period that the emission rate is quoted for.
pub const SECONDS_PER_DAY: u128 = 86_400;

} // verus!
