//! What holds of the contract as a whole. What each function does, as seen from
//! outside, is in [`behavior`].
pub mod behavior;

use crate::contract;
use crate::fees;
use crate::host;
use crate::host::{CallOutcome, EntryView, EventDataView};
use crate::pipeline;
use crate::store;
use crate::types::{
    DataKey, ErrorCategory, ExecutionError, ExecutionRequest, ExecutionResult, FeeEstimate,
    SimulationResult,
};
use soroban_sdk::{Address, Env, Symbol};
use vstd::prelude::*;

verus! {

/// Initialization happens once: after it has succeeded, initializing again is
/// refused, whatever the arguments, and changes nothing.
pub proof fn law_initialized_once(
    before: Env,
    between: Env,
    after: Env,
    admin: Address,
    max_retries: u32,
    other_admin: Address,
    other_max_retries: u32,
    second: Result<(), ExecutionError>,
)
    requires
        contract::initialization_done(before, between, admin, max_retries, Ok(())),
        contract::initialization_done(between, after, other_admin, other_max_retries, second),
    ensures
        second == Err::<(), ExecutionError>(ExecutionError::AlreadyInitialized),
        host::instance(after) == host::instance(between),
{
}

/// What a successful initialization stores is read back: the admin is the one
/// that was given, the cap on retries is the one that was given and at most 5,
/// and both counters are zero. The state is then consistent, whatever it was
/// before.
pub proof fn law_initialization_read_back(
    before: Env,
    after: Env,
    admin: Address,
    max_retries: u32,
)
    requires
        contract::initialization_done(before, after, admin, max_retries, Ok(())),
    ensures
        store::admin_readable(host::instance(after)),
        host::instance(after)[DataKey::Admin.text()] == EntryView::Address(host::strkey(admin)),
        host::instance(after)[DataKey::MaxRetries.text()] == EntryView::U32(max_retries),
        max_retries <= 5,
        store::counter(host::instance(after), DataKey::TotalExecutions) == 0,
        store::counter(host::instance(after), DataKey::TotalErrors) == 0,
        store::consistent(host::instance(after)),
{
    store::lemma_keys();
}

/// A consistent state stays consistent when the contract is initialized.
pub proof fn law_initialize_keeps_consistency(
    before: Env,
    after: Env,
    admin: Address,
    max_retries: u32,
    result: Result<(), ExecutionError>,
)
    requires
        store::consistent(host::instance(before)),
        contract::initialization_done(before, after, admin, max_retries, result),
    ensures
        store::consistent(host::instance(after)),
{
    store::lemma_keys();
}

/// A consistent state stays consistent when a request is run, and the admin and
/// the cap on retries stay what they were.
pub proof fn law_execute_keeps_consistency(
    before: Env,
    after: Env,
    request: ExecutionRequest,
    result: Result<ExecutionResult, ExecutionError>,
)
    requires
        store::consistent(host::instance(before)),
        contract::execution_done(before, after, request, result),
    ensures
        store::consistent(host::instance(after)),
        store::initialized(host::instance(after)) == store::initialized(host::instance(before)),
        store::initialized(host::instance(before)) ==> {
            &&& host::instance(after)[DataKey::Admin.text()]
                == host::instance(before)[DataKey::Admin.text()]
            &&& host::instance(after)[DataKey::MaxRetries.text()]
                == host::instance(before)[DataKey::MaxRetries.text()]
        },
{
    store::lemma_keys();
}

/// In a consistent state every request that names a contract can be run, as long
/// as the counters have room.
pub proof fn law_consistent_runs(store: Map<Seq<char>, EntryView>, request: ExecutionRequest)
    requires
        store::consistent(store),
        host::contract_strkey(host::strkey(request.target)),
        store::counter(store, DataKey::TotalExecutions) < u64::MAX,
        store::counter(store, DataKey::TotalErrors) < u64::MAX,
    ensures
        contract::runnable(store, request),
{
}

/// In a consistent state an execution is refused with `NotInitialized` exactly
/// when the contract is not initialized, as a simulation and an estimate are. A
/// refused execution makes no call, publishes nothing and stores nothing.
pub proof fn law_refused_until_initialized(
    before: Env,
    after: Env,
    request: ExecutionRequest,
    result: Result<ExecutionResult, ExecutionError>,
)
    requires
        store::consistent(host::instance(before)),
        contract::execution_done(before, after, request, result),
    ensures
        result == Err::<ExecutionResult, ExecutionError>(ExecutionError::NotInitialized)
            <==> !store::initialized(host::instance(before)),
        !store::initialized(host::instance(before)) ==> {
            &&& host::calls(after) == host::calls(before)
            &&& host::published(after) == host::published(before)
            &&& host::instance(after) == host::instance(before)
        },
{
}

/// A request is attempted at least once, unless its simulation failed, and at
/// most once more than the lesser of the retries that it asks for and the cap.
/// A result tells the number of attempts.
pub proof fn law_attempts_bounded(
    before: Env,
    after: Env,
    request: ExecutionRequest,
    cap: u32,
    result: Result<ExecutionResult, ExecutionError>,
)
    requires
        contract::executed(before, after, request, cap, result),
        pipeline::retry_budget(request.max_retries, cap) < u32::MAX,
    ensures
        ({
            let attempts = pipeline::attempts_in(
                request.simulate_first,
                contract::outcomes_between(before, after),
            );
            &&& 0 <= attempts <= request.max_retries + 1
            &&& attempts <= cap + 1
            &&& attempts == 0 <==> result == Err::<ExecutionResult, ExecutionError>(
                ExecutionError::SimulationFailed,
            )
            &&& result matches Ok(done) ==> done.attempts == attempts
        }),
{
    let outcomes = contract::outcomes_between(before, after);
    if request.simulate_first && outcomes[0] is Succeeded {
        assert(outcomes.skip(1).last() == outcomes.last());
    }
}

/// A failed simulation blocks execution: the call is made that once and not
/// again, the request fails with `SimulationFailed`, and no execution is
/// counted. Nothing else leads to that error.
pub proof fn law_failed_simulation_blocks(
    before: Env,
    after: Env,
    request: ExecutionRequest,
    cap: u32,
    result: Result<ExecutionResult, ExecutionError>,
)
    requires
        contract::executed(before, after, request, cap, result),
    ensures
        ({
            let outcomes = contract::outcomes_between(before, after);
            let blocked = request.simulate_first && !(outcomes[0] is Succeeded);
            &&& blocked <==> result == Err::<ExecutionResult, ExecutionError>(
                ExecutionError::SimulationFailed,
            )
            &&& blocked ==> outcomes.len() == 1
            &&& blocked ==> store::counter(host::instance(after), DataKey::TotalExecutions)
                == store::counter(host::instance(before), DataKey::TotalExecutions)
        }),
{
    store::lemma_keys();
}

/// Only network errors are retried: whenever one attempt follows another, the
/// earlier one failed with a network error. An attempt that ends in any other way
/// is the last.
pub proof fn law_only_network_errors_retried(
    before: Env,
    after: Env,
    request: ExecutionRequest,
    cap: u32,
    result: Result<ExecutionResult, ExecutionError>,
    i: int,
)
    requires
        contract::executed(before, after, request, cap, result),
        (if request.simulate_first { 1int } else { 0int }) <= i,
        i < contract::outcomes_between(before, after).len(),
    ensures
        ({
            let outcomes = contract::outcomes_between(before, after);
            &&& i + 1 < outcomes.len() ==> pipeline::transient(outcomes[i])
            &&& !pipeline::transient(outcomes[i]) ==> i + 1 == outcomes.len()
        }),
{
    let outcomes = contract::outcomes_between(before, after);
    if request.simulate_first {
        assert(outcomes[i] == outcomes.skip(1)[i - 1]);
    }
}

/// A network error is retried as long as the budget lasts: a request fails after
/// one only when it has been attempted once more than it may be retried.
pub proof fn law_network_errors_retried(
    before: Env,
    after: Env,
    request: ExecutionRequest,
    cap: u32,
    result: Result<ExecutionResult, ExecutionError>,
)
    requires
        contract::executed(before, after, request, cap, result),
        result == Err::<ExecutionResult, ExecutionError>(ExecutionError::ContractRejected),
    ensures
        ({
            let outcomes = contract::outcomes_between(before, after);
            pipeline::transient(outcomes.last()) ==> pipeline::attempts_in(
                request.simulate_first,
                outcomes,
            ) == pipeline::retry_budget(request.max_retries, cap) + 1
        }),
{
    let outcomes = contract::outcomes_between(before, after);
    if request.simulate_first {
        assert(outcomes.skip(1).last() == outcomes.last());
    }
}

/// A request succeeds exactly when its simulation, if any, and its last attempt
/// succeed.
pub proof fn law_success(
    before: Env,
    after: Env,
    request: ExecutionRequest,
    cap: u32,
    result: Result<ExecutionResult, ExecutionError>,
)
    requires
        contract::executed(before, after, request, cap, result),
    ensures
        ({
            let outcomes = contract::outcomes_between(before, after);
            result is Ok <==> (request.simulate_first ==> outcomes[0] is Succeeded)
                && outcomes.last() is Succeeded
        }),
{
}

/// Every run is counted once: a success as an execution, a failure as an error.
pub proof fn law_counted_once(
    before: Env,
    after: Env,
    request: ExecutionRequest,
    cap: u32,
    result: Result<ExecutionResult, ExecutionError>,
)
    requires
        contract::runnable(host::instance(before), request),
        host::instance(before).contains_key(DataKey::MaxRetries.text()),
        contract::executed(before, after, request, cap, result),
    ensures
        store::counter(host::instance(after), DataKey::TotalExecutions) == store::counter(
            host::instance(before),
            DataKey::TotalExecutions,
        ) + (if result is Ok { 1int } else { 0int }),
        store::counter(host::instance(after), DataKey::TotalErrors) == store::counter(
            host::instance(before),
            DataKey::TotalErrors,
        ) + (if result is Err { 1int } else { 0int }),
{
    store::lemma_keys();
}

/// Every outcome is logged: the last event of a run is an `execution_result` for
/// the request's target and function that says whether it succeeded. A failure
/// has one more event before it, with the code of the error that is returned.
pub proof fn law_every_outcome_logged(
    before: Env,
    after: Env,
    request: ExecutionRequest,
    cap: u32,
    result: Result<ExecutionResult, ExecutionError>,
)
    requires
        contract::executed(before, after, request, cap, result),
    ensures
        ({
            let events = host::published(after);
            &&& events.len() == host::published(before).len() + (if result is Ok {
                1int
            } else {
                2int
            })
            &&& events.last().topic == "execution_result"@
            &&& events.last().data matches EventDataView::Execution {
                target,
                function,
                success,
                attempts,
            } && {
                &&& target == host::strkey(request.target)
                &&& function == host::symbol_text(request.function)
                &&& success == (result is Ok)
            }
            &&& result matches Err(error) ==> {
                &&& events[events.len() - 2].topic == "execution_error"@
                &&& events[events.len() - 2].data matches EventDataView::Failure { code, .. }
                    && code == error.number()
            }
        }),
{
}

/// A run depends on the state, the request and the outcomes of its calls alone:
/// where those are the same, so are the result, the state after it and the events
/// that it publishes.
pub proof fn law_run_determined(
    before: Env,
    after: Env,
    other_before: Env,
    other_after: Env,
    request: ExecutionRequest,
    cap: u32,
    result: Result<ExecutionResult, ExecutionError>,
    other_result: Result<ExecutionResult, ExecutionError>,
)
    requires
        contract::executed(before, after, request, cap, result),
        contract::executed(other_before, other_after, request, cap, other_result),
        host::instance(before) == host::instance(other_before),
        host::published(before) == host::published(other_before),
        contract::outcomes_between(before, after) == contract::outcomes_between(
            other_before,
            other_after,
        ),
    ensures
        result == other_result,
        host::instance(after) == host::instance(other_after),
        host::published(after) == host::published(other_after),
{
}

/// A simulation says that the call would succeed, or that it would fail, and
/// never both. It leaves the contract's state as it is, so that it is counted
/// neither as an execution nor as an error.
pub proof fn law_simulation_counts_nothing(
    before: Env,
    after: Env,
    target: Address,
    function: Symbol,
    result: Result<SimulationResult, ExecutionError>,
)
    requires
        contract::simulation_done(before, after, target, function, result),
    ensures
        host::instance(after) == host::instance(before),
        result matches Ok(report) ==> report.success != report.would_fail,
        result is Ok <==> store::initialized(host::instance(before)),
{
}

/// Without surge pricing the total is the base fee and the resource fee; surge
/// pricing doubles it.
pub proof fn law_surge_doubles(amount: int, load: u32)
    ensures
        load < 8000 ==> fees::total_fee(amount, load) == 100 + fees::resource_fee(amount),
        load >= 8000 ==> fees::total_fee(amount, load) == 2 * (100 + fees::resource_fee(amount)),
{
    let fee = fees::BASE_FEE + fees::resource_fee(amount);
    let multiplier = fees::multiplier(load);
    if load < 8000 {
        assert(fee * multiplier == fee * 100) by (nonlinear_arith)
            requires
                multiplier == 100,
        ;
    } else {
        assert(fee * multiplier == fee * 200) by (nonlinear_arith)
            requires
                multiplier == 200,
        ;
    }
}

/// No fee is below 200 stroops, and no resource fee below 100.
pub proof fn law_fee_floor(amount: int, load: u32)
    ensures
        fees::resource_fee(amount) >= 100,
        fees::total_fee(amount, load) >= 200,
{
    law_surge_doubles(amount, load);
}

/// A larger amount never costs less, and neither does a higher load.
pub proof fn law_fee_monotone(
    amount: int,
    larger_amount: int,
    load: u32,
    higher_load: u32,
)
    requires
        amount <= larger_amount,
        load <= higher_load,
    ensures
        fees::total_fee(amount, load) <= fees::total_fee(larger_amount, higher_load),
{
    law_surge_doubles(amount, load);
    law_surge_doubles(larger_amount, higher_load);
    law_fee_floor(amount, load);
    law_fee_floor(larger_amount, higher_load);
}

/// There is one estimate for an amount under a load.
pub proof fn law_estimate_unique(
    estimate: FeeEstimate,
    other: FeeEstimate,
    amount: i128,
    load: u32,
)
    requires
        fees::is_estimate(estimate, amount, load),
        fees::is_estimate(other, amount, load),
    ensures
        estimate == other,
{
}

/// No two errors share a code.
pub proof fn law_codes_distinct(error: ExecutionError, other: ExecutionError)
    requires
        error.number() == other.number(),
    ensures
        error == other,
{
}

/// The hundreds digit of a code tells the family of its error.
pub proof fn law_codes_grouped(error: ExecutionError)
    ensures
        error.number() / 100 == match error.category() {
            ErrorCategory::Network => 1u32,
            ErrorCategory::Simulation => 2u32,
            ErrorCategory::Contract => 3u32,
            ErrorCategory::Config => 4u32,
        },
{
}

/// The outcomes that are retried are those with the code of an error in the
/// network family.
pub proof fn law_transient_is_network(error: ExecutionError)
    ensures
        pipeline::transient(CallOutcome::ContractError(error.number())) <==> error.category()
            == ErrorCategory::Network,
{
}

} // verus!
