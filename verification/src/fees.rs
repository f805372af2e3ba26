//! The fee schedule.
use crate::types::{ExecutionError, FeeEstimate};
use vstd::prelude::*;

verus! {

/// The network's minimum fee, in stroops.
pub const BASE_FEE: i128 = 100;

/// The least resource fee, in stroops.
pub const MIN_RESOURCE_FEE: i128 = 100;

/// One part in this many of the amount is charged for resources.
pub const RESOURCE_FEE_DIVISOR: i128 = 1000;

/// The load, in basis points, from which surge pricing applies.
pub const SURGE_THRESHOLD: u32 = 8000;

/// The multiplier without surge pricing, in percent.
pub const NORMAL_MULTIPLIER: u32 = 100;

/// The multiplier under surge pricing, in percent.
pub const SURGE_MULTIPLIER: u32 = 200;

/// The resource fee: a thousandth of the amount, rounded down, but never less
/// than the minimum.
pub open spec fn resource_fee(amount: int) -> int {
    if amount / (RESOURCE_FEE_DIVISOR as int) < MIN_RESOURCE_FEE {
        MIN_RESOURCE_FEE as int
    } else {
        amount / (RESOURCE_FEE_DIVISOR as int)
    }
}

/// The surge multiplier, in percent.
pub open spec fn multiplier(load: u32) -> u32 {
    if load >= SURGE_THRESHOLD {
        SURGE_MULTIPLIER
    } else {
        NORMAL_MULTIPLIER
    }
}

/// The whole fee: base and resource fee, times the multiplier.
pub open spec fn total_fee(amount: int, load: u32) -> int {
    (BASE_FEE + resource_fee(amount)) * multiplier(load) / 100
}

/// Whether this is the estimate for an amount under a load.
pub open spec fn is_estimate(estimate: FeeEstimate, amount: i128, load: u32) -> bool {
    &&& estimate.base_fee == BASE_FEE
    &&& estimate.resource_fee == resource_fee(amount as int)
    &&& estimate.total_fee == total_fee(amount as int, load)
    &&& estimate.surge_multiplier == multiplier(load)
    &&& estimate.high_load == (load >= SURGE_THRESHOLD)
}

/// The fee for moving an amount under a load given in basis points. The amount
/// has to be positive.
pub fn quote(amount: i128, load: u32) -> (quote: Result<FeeEstimate, ExecutionError>)
    ensures
        match quote {
            Ok(estimate) => amount > 0 && is_estimate(estimate, amount, load),
            Err(error) => amount <= 0 && error == ExecutionError::InvalidAmount,
        },
{
    if amount <= 0 {
        return Err(ExecutionError::InvalidAmount);
    }
    let scaled: i128 = amount / RESOURCE_FEE_DIVISOR;
    let resource_fee: i128 = if scaled < MIN_RESOURCE_FEE {
        MIN_RESOURCE_FEE
    } else {
        scaled
    };
    let high_load = load >= SURGE_THRESHOLD;
    let surge_multiplier: u32 = if high_load {
        SURGE_MULTIPLIER
    } else {
        NORMAL_MULTIPLIER
    };
    assert(0 <= (BASE_FEE + resource_fee) * surge_multiplier <= (BASE_FEE + resource_fee) * 200)
        by (nonlinear_arith)
        requires
            0 <= resource_fee,
            surge_multiplier <= 200,
    ;
    let total_fee: i128 = (BASE_FEE + resource_fee) * surge_multiplier as i128 / 100;
    Ok(FeeEstimate { base_fee: BASE_FEE, resource_fee, total_fee, surge_multiplier, high_load })
}

} // verus!
