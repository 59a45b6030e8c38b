use vstd::prelude::*;
use crate::error::StakingError;
use crate::state::Global;

verus! {

/// What setting the emission rate works on: the pool record, as the record
/// store found or newly created it. That the caller is the administrator has
/// been checked before the core is asked.
#[derive(Clone, Copy, Debug, PartialEq, Eq)]
pub struct SetParams {
    pub global: Global,
}

/// The pool record after the administrator has set `emission_rate`, or the
/// error for a rate of zero. Only the rate changes: rewards already booked
/// stay, and time not yet accrued will be priced at the new rate.
pub open spec fn set_params_outcome(ctx: SetParams, emission_rate: u64) -> Result<
    Global,
    StakingError,
> {
    if emission_rate == 0 {
        Err(StakingError::InvalidEmissionRate)
    } else {
        Ok(Global { emission_rate, ..ctx.global })
    }
}

/// Sets the pool's emission rate. A rate of zero is refused and leaves the
/// record as it was.
pub fn set_params_handler(ctx: &mut SetParams, emission_rate: u64) -> (r: Result<
    (),
    StakingError,
>)
    ensures
        match set_params_outcome(*old(ctx), emission_rate) {
            Ok(global) => r is Ok && final(ctx).global == global,
            Err(e) => r == Err::<(), StakingError>(e) && *final(ctx) == *old(ctx),
        },
{
    if emission_rate == 0 {
        return Err(StakingError::InvalidEmissionRate);
    }
    ctx.global.emission_rate = emission_rate;
    Ok(())
}

} // verus!
