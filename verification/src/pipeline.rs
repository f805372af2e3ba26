//! How an execution proceeds: when a call is tried again, and how it ends.
use crate::host::CallOutcome;
use crate::types::ExecutionError;
use vstd::prelude::*;

verus! {

/// How many times a request may be retried: as often as it asks for, but no more
/// than the contract's cap.
pub open spec fn retry_budget(requested: u32, cap: u32) -> u32 {
    if requested < cap {
        requested
    } else {
        cap
    }
}

/// How many times a request may be retried.
pub fn effective_retries(requested: u32, cap: u32) -> (budget: u32)
    ensures
        budget == retry_budget(requested, cap),
{
    if requested < cap {
        requested
    } else {
        cap
    }
}

/// Whether an outcome is a transient network failure: a contract error with the
/// code of one of the network errors.
pub open spec fn transient(outcome: CallOutcome) -> bool {
    outcome matches CallOutcome::ContractError(code) && (code
        == ExecutionError::NetworkTimeout.number() || code
        == ExecutionError::NetworkUnavailable.number())
}

/// Whether an outcome is a transient network failure.
pub fn is_transient(outcome: CallOutcome) -> (answer: bool)
    ensures
        answer == transient(outcome),
{
    match outcome {
        CallOutcome::ContractError(code) => code == ExecutionError::NetworkTimeout.code() || code
            == ExecutionError::NetworkUnavailable.code(),
        _ => false,
    }
}

/// What to do once a call has ended.
#[derive(Copy, Clone, Debug, PartialEq, Eq, Structural)]
pub enum Step {
    /// Go on: to the execution after a simulation, to the end after an execution.
    Proceed,
    /// Make the call again.
    Retry,
    /// Give up with this error.
    Fail(ExecutionError),
}

/// What follows a simulation: a failed one blocks execution.
pub fn after_simulation(outcome: CallOutcome) -> (step: Step)
    ensures
        step == (if outcome is Succeeded {
            Step::Proceed
        } else {
            Step::Fail(ExecutionError::SimulationFailed)
        }),
{
    match outcome {
        CallOutcome::Succeeded => Step::Proceed,
        _ => Step::Fail(ExecutionError::SimulationFailed),
    }
}

/// What follows the execution attempt with this number: success ends the run, a
/// transient failure is retried while the budget lasts, and any other failure is
/// a rejection.
pub fn after_attempt(outcome: CallOutcome, attempts: u32, budget: u32) -> (step: Step)
    ensures
        step == (if outcome is Succeeded {
            Step::Proceed
        } else if transient(outcome) && attempts <= budget {
            Step::Retry
        } else {
            Step::Fail(ExecutionError::ContractRejected)
        }),
{
    match outcome {
        CallOutcome::Succeeded => Step::Proceed,
        _ => if is_transient(outcome) && attempts <= budget {
            Step::Retry
        } else {
            Step::Fail(ExecutionError::ContractRejected)
        },
    }
}

/// Whether these are the outcomes of all attempts of one execution: every
/// attempt but the last is a transient failure, and the last one is either no
/// transient failure or the last that the budget allows.
pub open spec fn complete_run(outcomes: Seq<CallOutcome>, budget: u32) -> bool {
    &&& 1 <= outcomes.len() <= budget + 1
    &&& forall|i: int| 0 <= i < outcomes.len() - 1 ==> transient(#[trigger] outcomes[i])
    &&& transient(outcomes.last()) ==> outcomes.len() == budget + 1
}

/// Whether these are the outcomes of all calls that one request leads to: the
/// simulation first, where one is asked for, and then the attempts, unless the
/// simulation failed.
pub open spec fn complete_trace(
    simulate_first: bool,
    budget: u32,
    outcomes: Seq<CallOutcome>,
) -> bool {
    if simulate_first {
        &&& outcomes.len() >= 1
        &&& if outcomes[0] is Succeeded {
            complete_run(outcomes.skip(1), budget)
        } else {
            outcomes.len() == 1
        }
    } else {
        complete_run(outcomes, budget)
    }
}

/// How many of the calls were execution attempts.
pub open spec fn attempts_in(simulate_first: bool, outcomes: Seq<CallOutcome>) -> int {
    if simulate_first {
        outcomes.len() - 1
    } else {
        outcomes.len() as int
    }
}

/// How a request ends, given the outcomes of all its calls.
pub open spec fn verdict(simulate_first: bool, outcomes: Seq<CallOutcome>) -> Result<
    (),
    ExecutionError,
> {
    if simulate_first && !(outcomes[0] is Succeeded) {
        Err(ExecutionError::SimulationFailed)
    } else if outcomes.last() is Succeeded {
        Ok(())
    } else {
        Err(ExecutionError::ContractRejected)
    }
}

} // verus!
