use router_execution::fees::quote;
use router_execution::host::CallOutcome;
use router_execution::pipeline::{
    after_attempt, after_simulation, effective_retries, is_transient, Step,
};
use router_execution::{DataKey, ExecutionError, FeeEstimate};

#[test]
fn effective_retries_is_the_lesser() {
    assert_eq!(effective_retries(1, 3), 1);
    assert_eq!(effective_retries(3, 1), 1);
    assert_eq!(effective_retries(2, 2), 2);
    assert_eq!(effective_retries(0, 5), 0);
    assert_eq!(effective_retries(u32::MAX, 5), 5);
}

#[test]
fn network_codes_are_transient() {
    assert!(is_transient(CallOutcome::ContractError(101)));
    assert!(is_transient(CallOutcome::ContractError(102)));
    assert!(!is_transient(CallOutcome::ContractError(100)));
    assert!(!is_transient(CallOutcome::ContractError(103)));
    assert!(!is_transient(CallOutcome::ContractError(301)));
    assert!(!is_transient(CallOutcome::Aborted));
    assert!(!is_transient(CallOutcome::Succeeded));
}

#[test]
fn simulation_outcome_decides() {
    assert_eq!(after_simulation(CallOutcome::Succeeded), Step::Proceed);
    let blocked = Step::Fail(ExecutionError::SimulationFailed);
    assert_eq!(after_simulation(CallOutcome::Aborted), blocked);
    assert_eq!(after_simulation(CallOutcome::ContractError(101)), blocked);
}

#[test]
fn attempt_outcome_decides() {
    let rejected = Step::Fail(ExecutionError::ContractRejected);
    assert_eq!(after_attempt(CallOutcome::Succeeded, 1, 0), Step::Proceed);
    assert_eq!(after_attempt(CallOutcome::Succeeded, 3, 2), Step::Proceed);
    assert_eq!(after_attempt(CallOutcome::ContractError(101), 1, 0), rejected);
    assert_eq!(after_attempt(CallOutcome::ContractError(101), 1, 1), Step::Retry);
    assert_eq!(after_attempt(CallOutcome::ContractError(102), 2, 2), Step::Retry);
    assert_eq!(after_attempt(CallOutcome::ContractError(102), 3, 2), rejected);
    assert_eq!(after_attempt(CallOutcome::ContractError(7), 1, 5), rejected);
    assert_eq!(after_attempt(CallOutcome::Aborted, 1, 5), rejected);
}

#[test]
fn quote_exact_values() {
    let normal = FeeEstimate {
        base_fee: 100,
        resource_fee: 1000,
        total_fee: 1100,
        surge_multiplier: 100,
        high_load: false,
    };
    assert_eq!(quote(1_000_000, 5000), Ok(normal));
    let surged = FeeEstimate {
        base_fee: 100,
        resource_fee: 1000,
        total_fee: 2200,
        surge_multiplier: 200,
        high_load: true,
    };
    assert_eq!(quote(1_000_000, 8000), Ok(surged));
}

#[test]
fn quote_floor_and_threshold() {
    assert_eq!(quote(1, 0).unwrap().total_fee, 200);
    assert_eq!(quote(100_999, 0).unwrap().resource_fee, 100);
    assert_eq!(quote(101_000, 0).unwrap().resource_fee, 101);
    assert_eq!(quote(1, 7999).unwrap().surge_multiplier, 100);
    assert_eq!(quote(1, 8000).unwrap().total_fee, 400);
    assert!(quote(1, u32::MAX).unwrap().high_load);
}

#[test]
fn quote_of_the_largest_amount() {
    let estimate = quote(i128::MAX, 10_000).unwrap();
    assert_eq!(estimate.resource_fee, i128::MAX / 1000);
    assert_eq!(estimate.total_fee, (100 + i128::MAX / 1000) * 2);
}

#[test]
fn quote_grows_with_amount_and_load() {
    let small = quote(200_000, 100).unwrap().total_fee;
    let large = quote(300_000, 100).unwrap().total_fee;
    let surged = quote(300_000, 9000).unwrap().total_fee;
    assert_eq!((small, large, surged), (300, 400, 800));
}

#[test]
fn quote_refuses_what_is_not_positive() {
    assert_eq!(quote(0, 0), Err(ExecutionError::InvalidAmount));
    assert_eq!(quote(-1, 9000), Err(ExecutionError::InvalidAmount));
    assert_eq!(quote(i128::MIN, 0), Err(ExecutionError::InvalidAmount));
}

#[test]
fn error_codes() {
    assert_eq!(ExecutionError::NetworkTimeout.code(), 101);
    assert_eq!(ExecutionError::NetworkUnavailable.code(), 102);
    assert_eq!(ExecutionError::SimulationFailed.code(), 201);
    assert_eq!(ExecutionError::SimulationInsufficientResources.code(), 202);
    assert_eq!(ExecutionError::ContractRejected.code(), 301);
    assert_eq!(ExecutionError::ContractNotFound.code(), 302);
    assert_eq!(ExecutionError::ContractFunctionNotFound.code(), 303);
    assert_eq!(ExecutionError::AlreadyInitialized.code(), 401);
    assert_eq!(ExecutionError::NotInitialized.code(), 402);
    assert_eq!(ExecutionError::Unauthorized.code(), 403);
    assert_eq!(ExecutionError::InvalidConfig.code(), 404);
    assert_eq!(ExecutionError::InvalidAmount.code(), 405);
}

#[test]
fn key_names() {
    assert_eq!(DataKey::Admin.name(), "Admin");
    assert_eq!(DataKey::MaxRetries.name(), "MaxRetries");
    assert_eq!(DataKey::TotalExecutions.name(), "TotalExecutions");
    assert_eq!(DataKey::TotalErrors.name(), "TotalErrors");
}
