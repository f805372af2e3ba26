//! The execution contract.
use crate::fees;
use crate::host;
use crate::host::{CallOutcome, CallRecord, Entry, EntryView, Event, EventData, EventDataView};
use crate::pipeline;
use crate::pipeline::Step;
use crate::store;
use crate::types::{
    DataKey, ExecutionError, ExecutionRequest, ExecutionResult, FeeEstimate, SimulationResult,
};
use soroban_sdk::{Address, Env, Symbol};
use vstd::prelude::*;

verus! {

/// The execution contract. Its state is in the instance storage of the
/// environment that its functions are given.
pub struct RouterExecution;

/// Whether the contract has published no event, made no call and had no
/// authorization accepted in between.
pub open spec fn quiet(before: Env, after: Env) -> bool {
    &&& host::published(after) == host::published(before)
    &&& host::calls(after) == host::calls(before)
    &&& host::authenticated(after) == host::authenticated(before)
}

/// Whether a request can be run to its end. Where the contract has a cap on
/// retries, the cap is a number, the attempts can be counted, the target is a
/// contract, and both counters can be raised.
pub open spec fn runnable(store: Map<Seq<char>, EntryView>, request: ExecutionRequest) -> bool {
    store.contains_key(DataKey::MaxRetries.text()) ==> {
        &&& store[DataKey::MaxRetries.text()] matches EntryView::U32(cap)
            && pipeline::retry_budget(request.max_retries, cap) < u32::MAX
        &&& host::contract_strkey(host::strkey(request.target))
        &&& store::counter_readable(store, DataKey::TotalExecutions)
        &&& store::counter(store, DataKey::TotalExecutions) < u64::MAX
        &&& store::counter_readable(store, DataKey::TotalErrors)
        &&& store::counter(store, DataKey::TotalErrors) < u64::MAX
    }
}

/// The calls that a request leads to, with these outcomes.
pub open spec fn records(request: ExecutionRequest, outcomes: Seq<CallOutcome>) -> Seq<
    CallRecord,
> {
    Seq::new(
        outcomes.len(),
        |i: int|
            CallRecord {
                target: host::strkey(request.target),
                function: host::symbol_text(request.function),
                outcome: outcomes[i],
            },
    )
}

/// The outcomes of the calls made in between.
pub open spec fn outcomes_between(before: Env, after: Env) -> Seq<CallOutcome> {
    Seq::new(
        (host::calls(after).len() - host::calls(before).len()) as nat,
        |i: int| host::calls(after)[host::calls(before).len() + i].outcome,
    )
}

/// The event that says how an execution ended.
pub open spec fn execution_event(
    target: Address,
    function: Symbol,
    success: bool,
    attempts: u32,
) -> Event {
    Event {
        topic: "execution_result"@,
        data: EventDataView::Execution {
            target: host::strkey(target),
            function: host::symbol_text(function),
            success,
            attempts,
        },
    }
}

/// The event that says why an execution failed.
pub open spec fn failure_event(
    target: Address,
    function: Symbol,
    error: ExecutionError,
    attempts: u32,
) -> Event {
    Event {
        topic: "execution_error"@,
        data: EventDataView::Failure {
            target: host::strkey(target),
            function: host::symbol_text(function),
            code: error.number(),
            attempts,
        },
    }
}

/// The event that says what a fee estimate came to.
pub open spec fn fee_event(estimate: FeeEstimate) -> Event {
    Event {
        topic: "fee_estimated"@,
        data: EventDataView::Fee { total_fee: estimate.total_fee, high_load: estimate.high_load },
    }
}

/// The event that says how a simulation ended.
pub open spec fn simulation_event(target: Address, function: Symbol, success: bool) -> Event {
    Event {
        topic: "simulation_result"@,
        data: EventDataView::Simulation {
            target: host::strkey(target),
            function: host::symbol_text(function),
            success,
        },
    }
}

/// The feedback that a simulation gives.
pub open spec fn simulation_message(success: bool) -> Seq<char> {
    if success {
        "simulation succeeded"@
    } else {
        "simulation failed: transaction would be rejected"@
    }
}

/// Whether a simulation against a target can be run to its end: where the
/// contract is initialized, the target is a contract.
pub open spec fn simulatable(store: Map<Seq<char>, EntryView>, target: Address) -> bool {
    store::initialized(store) ==> host::contract_strkey(host::strkey(target))
}

/// What initializing does. It succeeds once, with a cap on retries that the
/// contract takes; otherwise nothing is stored.
pub open spec fn initialization_done(
    before: Env,
    after: Env,
    admin: Address,
    max_retries: u32,
    result: Result<(), ExecutionError>,
) -> bool {
    let store = host::instance(before);
    if store::initialized(store) {
        &&& result == Err::<(), ExecutionError>(ExecutionError::AlreadyInitialized)
        &&& host::instance(after) == store
    } else if max_retries > store::MAX_RETRY_CAP {
        &&& result == Err::<(), ExecutionError>(ExecutionError::InvalidConfig)
        &&& host::instance(after) == store
    } else {
        &&& result == Ok::<(), ExecutionError>(())
        &&& host::instance(after) == store::initial(store, host::strkey(admin), max_retries)
    }
}

/// What running a request does, under a cap on retries. The calls made are
/// exactly those that the outcomes call for, each of them to the request's
/// function of its target. The outcomes then fix the rest: what is returned,
/// which counter goes up by one, and what is published.
pub open spec fn executed(
    before: Env,
    after: Env,
    request: ExecutionRequest,
    cap: u32,
    result: Result<ExecutionResult, ExecutionError>,
) -> bool {
    let outcomes = outcomes_between(before, after);
    let budget = pipeline::retry_budget(request.max_retries, cap);
    let attempts = pipeline::attempts_in(request.simulate_first, outcomes) as u32;
    &&& host::calls(after) == host::calls(before) + records(request, outcomes)
    &&& pipeline::complete_trace(request.simulate_first, budget, outcomes)
    &&& match pipeline::verdict(request.simulate_first, outcomes) {
        Ok(_) => {
            &&& result == Ok::<ExecutionResult, ExecutionError>(
                ExecutionResult {
                    target: request.target,
                    function: request.function,
                    success: true,
                    attempts,
                    simulated: request.simulate_first,
                },
            )
            &&& host::instance(after) == store::bumped(
                host::instance(before),
                DataKey::TotalExecutions,
            )
            &&& host::published(after) == host::published(before).push(
                execution_event(request.target, request.function, true, attempts),
            )
        },
        Err(error) => {
            &&& result == Err::<ExecutionResult, ExecutionError>(error)
            &&& host::instance(after) == store::bumped(host::instance(before), DataKey::TotalErrors)
            &&& host::published(after) == host::published(before).push(
                failure_event(request.target, request.function, error, attempts),
            ).push(execution_event(request.target, request.function, false, attempts))
        },
    }
}

/// What asking for an execution does: nothing but an error where the contract is
/// not initialized, and otherwise a run of the request.
pub open spec fn execution_done(
    before: Env,
    after: Env,
    request: ExecutionRequest,
    result: Result<ExecutionResult, ExecutionError>,
) -> bool {
    let store = host::instance(before);
    if store.contains_key(DataKey::MaxRetries.text()) {
        executed(before, after, request, store[DataKey::MaxRetries.text()]->U32_0, result)
    } else {
        &&& result == Err::<ExecutionResult, ExecutionError>(ExecutionError::NotInitialized)
        &&& host::instance(after) == store
        &&& host::published(after) == host::published(before)
        &&& host::calls(after) == host::calls(before)
    }
}

/// Whether this reports a simulation of a function of a target.
pub open spec fn reports(
    report: SimulationResult,
    target: Address,
    function: Symbol,
    success: bool,
) -> bool {
    &&& report.target == target
    &&& report.function == function
    &&& report.success == success
    &&& report.would_fail == !success
    &&& host::string_text(report.message) == simulation_message(success)
}

/// What asking for a simulation does: nothing but an error where the contract is
/// not initialized, and otherwise one call, one event and a report of how the
/// call ended.
pub open spec fn simulation_done(
    before: Env,
    after: Env,
    target: Address,
    function: Symbol,
    result: Result<SimulationResult, ExecutionError>,
) -> bool {
    &&& host::instance(after) == host::instance(before)
    &&& if store::initialized(host::instance(before)) {
        let outcome = host::calls(after).last().outcome;
        &&& host::calls(after) == host::calls(before).push(
            CallRecord {
                target: host::strkey(target),
                function: host::symbol_text(function),
                outcome,
            },
        )
        &&& host::published(after) == host::published(before).push(
            simulation_event(target, function, outcome is Succeeded),
        )
        &&& result matches Ok(report) && reports(report, target, function, outcome is Succeeded)
    } else {
        &&& result == Err::<SimulationResult, ExecutionError>(ExecutionError::NotInitialized)
        &&& host::published(after) == host::published(before)
        &&& host::calls(after) == host::calls(before)
    }
}

/// Every topic can be made into a symbol.
proof fn lemma_topics()
    ensures
        host::symbol_valid("execution_result"@),
        host::symbol_valid("execution_error"@),
        host::symbol_valid("fee_estimated"@),
        host::symbol_valid("simulation_result"@),
{
    reveal_strlit("execution_result");
    reveal_strlit("execution_error");
    reveal_strlit("fee_estimated");
    reveal_strlit("simulation_result");
}

/// Whether an address is that of a contract, and not that of an account.
pub fn is_contract_address(address: &Address) -> (answer: bool)
    ensures
        answer == host::contract_strkey(host::strkey(*address)),
{
    let key = host::address_strkey(address);
    let text = key.as_str();
    text.unicode_len() > 0 && text.get_char(0) == 'C'
}

impl RouterExecution {
    /// Initialize the execution contract.
    ///
    /// # Arguments
    /// * `admin` - Admin address.
    /// * `max_retries` - Global cap on per-request retry attempts (max 5).
    ///
    /// # Errors
    /// * [`ExecutionError::AlreadyInitialized`] — called more than once.
    /// * [`ExecutionError::InvalidConfig`] — `max_retries` exceeds 5.
    pub fn initialize(env: &mut Env, admin: Address, max_retries: u32) -> (result: Result<
        (),
        ExecutionError,
    >)
        ensures
            initialization_done(*old(env), *final(env), admin, max_retries, result),
            result is Ok ==> {
                &&& store::consistent(host::instance(*final(env)))
                &&& host::instance(*final(env))[DataKey::Admin.text()] == EntryView::Address(
                    host::strkey(admin),
                )
                &&& host::instance(*final(env))[DataKey::MaxRetries.text()] == EntryView::U32(
                    max_retries,
                )
                &&& store::counter(host::instance(*final(env)), DataKey::TotalExecutions) == 0
                &&& store::counter(host::instance(*final(env)), DataKey::TotalErrors) == 0
            },
            quiet(*old(env), *final(env)),
            host::consenting(*final(env)) == host::consenting(*old(env)),
    {
        proof {
            store::lemma_keys();
        }
        if store::is_initialized(env) {
            return Err(ExecutionError::AlreadyInitialized);
        }
        if max_retries > store::MAX_RETRY_CAP {
            return Err(ExecutionError::InvalidConfig);
        }
        host::instance_set(env, DataKey::Admin.name(), &Entry::Address(admin));
        host::instance_set(env, DataKey::MaxRetries.name(), &Entry::U32(max_retries));
        host::instance_set(env, DataKey::TotalExecutions.name(), &Entry::U64(0));
        host::instance_set(env, DataKey::TotalErrors.name(), &Entry::U64(0));
        Ok(())
    }

    /// Execute a transaction with structured error handling and optional retry.
    ///
    /// The caller has to have authorized the invocation: the host ends the
    /// transaction of one that has not. What follows the authorization is
    /// [`RouterExecution::execute_authorized`].
    ///
    /// If `request.simulate_first` is `true`, the call is made once as a
    /// simulation before the real call. A failed simulation blocks execution and
    /// returns [`ExecutionError::SimulationFailed`].
    ///
    /// Network errors (codes 101 and 102) are retried up to
    /// `min(request.max_retries, global_max_retries)` times. All other errors end
    /// the execution at once, without retry.
    ///
    /// Every outcome (success or failure) is logged via an `execution_result`
    /// event so off-chain observers can monitor the pipeline; a failure is also
    /// logged, with its error code, via an `execution_error` event.
    ///
    /// # Errors
    /// * [`ExecutionError::SimulationFailed`] — the simulated call failed.
    /// * [`ExecutionError::ContractRejected`] — the call failed and was not, or not
    ///   any more, to be retried.
    /// * [`ExecutionError::NotInitialized`] — contract not initialized.
    pub fn execute(env: &mut Env, caller: Address, request: ExecutionRequest) -> (result: Result<
        ExecutionResult,
        ExecutionError,
    >)
        requires
            host::consenting(*old(env)).contains(host::strkey(caller)),
            runnable(host::instance(*old(env)), request),
        ensures
            execution_done(*old(env), *final(env), request, result),
            store::consistent(host::instance(*old(env))) ==> store::consistent(
                host::instance(*final(env)),
            ),
            host::authenticated(*final(env)) == host::authenticated(*old(env)).push(
                host::strkey(caller),
            ),
    {
        host::require_auth(env, &caller);
        let ghost authorized = *env;
        let result = Self::execute_authorized(env, request);
        assert(outcomes_between(authorized, *env) =~= outcomes_between(*old(env), *env));
        result
    }

    /// Runs a request on behalf of a caller that has been authenticated, without
    /// asking who the caller is. See [`RouterExecution::execute`].
    pub fn execute_authorized(env: &mut Env, request: ExecutionRequest) -> (result: Result<
        ExecutionResult,
        ExecutionError,
    >)
        requires
            runnable(host::instance(*old(env)), request),
        ensures
            execution_done(*old(env), *final(env), request, result),
            store::consistent(host::instance(*old(env))) ==> store::consistent(
                host::instance(*final(env)),
            ),
            host::authenticated(*final(env)) == host::authenticated(*old(env)),
    {
        proof {
            store::lemma_keys();
            lemma_topics();
        }
        let cap: u32 = match host::instance_get(env, DataKey::MaxRetries.name()) {
            Some(Entry::U32(n)) => n,
            _ => {
                return Err(ExecutionError::NotInitialized);
            },
        };
        let budget: u32 = pipeline::effective_retries(request.max_retries, cap);
        let ghost mut outcomes: Seq<CallOutcome> = Seq::empty();
        assert(host::calls(*env) =~= host::calls(*old(env)) + records(request, outcomes));

        if request.simulate_first {
            let outcome = host::try_invoke(env, &request.target, &request.function);
            proof {
                outcomes = outcomes.push(outcome);
                assert(host::calls(*env) =~= host::calls(*old(env)) + records(request, outcomes));
            }
            match pipeline::after_simulation(outcome) {
                Step::Fail(error) => {
                    Self::log_error(env, &request.target, &request.function, error, 0);
                    assert(outcomes_between(*old(env), *env) =~= outcomes);
                    return Err(error);
                },
                _ => {},
            }
        }
        let mut attempts: u32 = 0;
        loop
            invariant
                attempts <= budget < u32::MAX,
                budget == pipeline::retry_budget(request.max_retries, cap),
                runnable(host::instance(*old(env)), request),
                host::instance(*old(env)).contains_key(DataKey::MaxRetries.text()),
                host::instance(*old(env))[DataKey::MaxRetries.text()] == EntryView::U32(cap),
                host::instance(*env) == host::instance(*old(env)),
                host::published(*env) == host::published(*old(env)),
                host::authenticated(*env) == host::authenticated(*old(env)),
                host::calls(*env) == host::calls(*old(env)) + records(request, outcomes),
                outcomes.len() == attempts + (if request.simulate_first { 1int } else { 0int }),
                request.simulate_first ==> outcomes[0] is Succeeded,
                forall|i: int|
                    (if request.simulate_first { 1int } else { 0int }) <= i < outcomes.len()
                        ==> pipeline::transient(#[trigger] outcomes[i]),
                host::symbol_valid("execution_result"@),
            decreases budget - attempts,
        {
            attempts = attempts + 1;
            let outcome = host::try_invoke(env, &request.target, &request.function);
            proof {
                outcomes = outcomes.push(outcome);
                assert(host::calls(*env) =~= host::calls(*old(env)) + records(request, outcomes));
            }
            match pipeline::after_attempt(outcome, attempts, budget) {
                Step::Proceed => {
                    Self::increment_counter(env, DataKey::TotalExecutions);
                    host::publish(
                        env,
                        "execution_result",
                        EventData::Execution {
                            target: &request.target,
                            function: &request.function,
                            success: true,
                            attempts,
                        },
                    );
                    assert(outcomes_between(*old(env), *env) =~= outcomes);
                    return Ok(
                        ExecutionResult {
                            target: request.target,
                            function: request.function,
                            success: true,
                            attempts,
                            simulated: request.simulate_first,
                        },
                    );
                },
                Step::Retry => {},
                Step::Fail(error) => {
                    Self::log_error(env, &request.target, &request.function, error, attempts);
                    assert(outcomes_between(*old(env), *env) =~= outcomes);
                    return Err(error);
                },
            }
        }
    }

    /// Whether a request can be run to its end (see [`runnable`]).
    pub fn can_execute(env: &Env, request: &ExecutionRequest) -> (answer: bool)
        ensures
            answer == runnable(host::instance(*env), *request),
    {
        proof {
            store::lemma_keys();
        }
        let cap: u32 = match host::instance_get(env, DataKey::MaxRetries.name()) {
            None => {
                return true;
            },
            Some(Entry::U32(n)) => n,
            Some(_) => {
                return false;
            },
        };
        if pipeline::effective_retries(request.max_retries, cap) == u32::MAX {
            return false;
        }
        if !is_contract_address(&request.target) {
            return false;
        }
        match (
            store::read_counter(env, DataKey::TotalExecutions),
            store::read_counter(env, DataKey::TotalErrors),
        ) {
            (Some(executions), Some(errors)) => executions < u64::MAX && errors < u64::MAX,
            _ => false,
        }
    }

    /// Runs a request as [`RouterExecution::execute_authorized`] does, or does
    /// nothing where the request cannot be run to its end.
    pub fn execute_checked(env: &mut Env, request: ExecutionRequest) -> (result: Option<
        Result<ExecutionResult, ExecutionError>,
    >)
        ensures
            match result {
                Some(done) => runnable(host::instance(*old(env)), request) && execution_done(
                    *old(env),
                    *final(env),
                    request,
                    done,
                ),
                None => !runnable(host::instance(*old(env)), request) && *final(env) == *old(env),
            },
            host::authenticated(*final(env)) == host::authenticated(*old(env)),
    {
        if Self::can_execute(env, &request) {
            Some(Self::execute_authorized(env, request))
        } else {
            None
        }
    }

    /// Estimate fees for a transaction.
    ///
    /// Under high load, a surge multiplier is applied to the fee. The estimate is
    /// published via a `fee_estimated` event. It does not depend on the contract
    /// and the function to be called.
    ///
    /// # Arguments
    /// * `_target` - The contract to be called.
    /// * `_function` - The function to be invoked.
    /// * `amount` - The transaction amount in stroops (used to scale resource fees).
    ///   Must be greater than zero.
    /// * `high_load_threshold` - Network utilization in basis points; surge pricing
    ///   applies from 8000 (80%) on.
    ///
    /// # Errors
    /// * [`ExecutionError::InvalidAmount`] — if `amount` is ≤ 0.
    /// * [`ExecutionError::NotInitialized`] — if the contract is not initialized.
    pub fn estimate_fee(
        env: &mut Env,
        _target: Address,
        _function: Symbol,
        amount: i128,
        high_load_threshold: u32,
    ) -> (result: Result<FeeEstimate, ExecutionError>)
        ensures
            match result {
                Ok(estimate) => {
                    &&& store::initialized(host::instance(*old(env)))
                    &&& amount > 0
                    &&& fees::is_estimate(estimate, amount, high_load_threshold)
                    &&& host::published(*final(env)) == host::published(*old(env)).push(
                        fee_event(estimate),
                    )
                },
                Err(error) => {
                    &&& !store::initialized(host::instance(*old(env))) || amount <= 0
                    &&& error == (if store::initialized(host::instance(*old(env))) {
                        ExecutionError::InvalidAmount
                    } else {
                        ExecutionError::NotInitialized
                    })
                    &&& host::published(*final(env)) == host::published(*old(env))
                },
            },
            host::instance(*final(env)) == host::instance(*old(env)),
            host::calls(*final(env)) == host::calls(*old(env)),
            host::authenticated(*final(env)) == host::authenticated(*old(env)),
            host::consenting(*final(env)) == host::consenting(*old(env)),
    {
        proof {
            lemma_topics();
        }
        if !store::is_initialized(env) {
            return Err(ExecutionError::NotInitialized);
        }
        let estimate = match fees::quote(amount, high_load_threshold) {
            Ok(estimate) => estimate,
            Err(error) => {
                return Err(error);
            },
        };
        host::publish(
            env,
            "fee_estimated",
            EventData::Fee { total_fee: estimate.total_fee, high_load: estimate.high_load },
        );
        Ok(estimate)
    }

    /// Simulate a transaction.
    ///
    /// Makes the call once and returns a [`SimulationResult`] that says whether it
    /// succeeded. The contract's own state is not touched: no execution and no
    /// error is counted.
    ///
    /// Simulation results are logged via a `simulation_result` event so
    /// off-chain observers can track validation outcomes.
    ///
    /// # Arguments
    /// * `caller` - The address requesting simulation; must authenticate. The host
    ///   ends the transaction of one that has not authorized it.
    /// * `target` - The contract to simulate against.
    /// * `function` - The function to simulate.
    ///
    /// # Errors
    /// * [`ExecutionError::NotInitialized`] — if the contract is not initialized.
    pub fn simulate(env: &mut Env, caller: Address, target: Address, function: Symbol) -> (result:
        Result<SimulationResult, ExecutionError>)
        requires
            host::consenting(*old(env)).contains(host::strkey(caller)),
            simulatable(host::instance(*old(env)), target),
        ensures
            simulation_done(*old(env), *final(env), target, function, result),
            host::authenticated(*final(env)) == host::authenticated(*old(env)).push(
                host::strkey(caller),
            ),
    {
        host::require_auth(env, &caller);
        Self::simulate_authorized(env, target, function)
    }

    /// Simulates a transaction on behalf of a caller that has been authenticated,
    /// without asking who the caller is. See [`RouterExecution::simulate`].
    pub fn simulate_authorized(env: &mut Env, target: Address, function: Symbol) -> (result: Result<
        SimulationResult,
        ExecutionError,
    >)
        requires
            simulatable(host::instance(*old(env)), target),
        ensures
            simulation_done(*old(env), *final(env), target, function, result),
            host::authenticated(*final(env)) == host::authenticated(*old(env)),
    {
        proof {
            lemma_topics();
        }
        if !store::is_initialized(env) {
            return Err(ExecutionError::NotInitialized);
        }
        let outcome = host::try_invoke(env, &target, &function);
        let report = Self::simulation_report(env, target, function, outcome);
        host::publish(
            env,
            "simulation_result",
            EventData::Simulation {
                target: &report.target,
                function: &report.function,
                success: report.success,
            },
        );
        Ok(report)
    }

    /// What is reported of a simulated call that ended in this way.
    pub fn simulation_report(
        env: &Env,
        target: Address,
        function: Symbol,
        outcome: CallOutcome,
    ) -> (report: SimulationResult)
        ensures
            reports(report, target, function, outcome is Succeeded),
    {
        let success = match outcome {
            CallOutcome::Succeeded => true,
            _ => false,
        };
        let message = if success {
            host::string_from_str(env, "simulation succeeded")
        } else {
            host::string_from_str(env, "simulation failed: transaction would be rejected")
        };
        SimulationResult { target, function, success, would_fail: !success, message }
    }

    /// Whether a simulation against a target can be run to its end (see
    /// [`simulatable`]).
    pub fn can_simulate(env: &Env, target: &Address) -> (answer: bool)
        ensures
            answer == simulatable(host::instance(*env), *target),
    {
        !store::is_initialized(env) || is_contract_address(target)
    }

    /// Simulates as [`RouterExecution::simulate_authorized`] does, or does nothing
    /// where the simulation cannot be run to its end.
    pub fn simulate_checked(env: &mut Env, target: Address, function: Symbol) -> (result: Option<
        Result<SimulationResult, ExecutionError>,
    >)
        ensures
            match result {
                Some(done) => simulatable(host::instance(*old(env)), target) && simulation_done(
                    *old(env),
                    *final(env),
                    target,
                    function,
                    done,
                ),
                None => !simulatable(host::instance(*old(env)), target) && *final(env) == *old(env),
            },
            host::authenticated(*final(env)) == host::authenticated(*old(env)),
    {
        if Self::can_simulate(env, &target) {
            Some(Self::simulate_authorized(env, target, function))
        } else {
            None
        }
    }

    /// Get the current admin address. The contract has to be initialized.
    pub fn admin(env: &Env) -> (admin: Address)
        requires
            store::admin_readable(host::instance(*env)),
        ensures
            host::instance(*env)[DataKey::Admin.text()] == EntryView::Address(host::strkey(admin)),
    {
        proof {
            store::lemma_keys();
        }
        let entry = host::instance_get(env, DataKey::Admin.name());
        match entry {
            Some(Entry::Address(admin)) => admin,
            _ => {
                vstd::pervasive::unreached()
            },
        }
    }

    /// The current admin address, or nothing where none can be read.
    pub fn admin_checked(env: &Env) -> (admin: Option<Address>)
        ensures
            match admin {
                Some(address) => store::admin_readable(host::instance(*env)) && host::instance(
                    *env,
                )[DataKey::Admin.text()] == EntryView::Address(host::strkey(address)),
                None => !store::admin_readable(host::instance(*env)),
            },
    {
        proof {
            store::lemma_keys();
        }
        match host::instance_get(env, DataKey::Admin.name()) {
            Some(Entry::Address(admin)) => Some(admin),
            _ => None,
        }
    }

    /// Get cumulative execution statistics.
    ///
    /// Returns `(total_executions, total_errors)`.
    pub fn stats(env: &Env) -> (totals: (u64, u64))
        requires
            store::counter_readable(host::instance(*env), DataKey::TotalExecutions),
            store::counter_readable(host::instance(*env), DataKey::TotalErrors),
        ensures
            totals.0 == store::counter(host::instance(*env), DataKey::TotalExecutions),
            totals.1 == store::counter(host::instance(*env), DataKey::TotalErrors),
    {
        let executions: u64 = match store::read_counter(env, DataKey::TotalExecutions) {
            Some(n) => n,
            None => 0,
        };
        let errors: u64 = match store::read_counter(env, DataKey::TotalErrors) {
            Some(n) => n,
            None => 0,
        };
        (executions, errors)
    }

    /// The execution statistics, or nothing where something else is stored in
    /// place of a counter.
    pub fn stats_checked(env: &Env) -> (totals: Option<(u64, u64)>)
        ensures
            match totals {
                Some((executions, errors)) => {
                    &&& store::counter_readable(host::instance(*env), DataKey::TotalExecutions)
                    &&& store::counter_readable(host::instance(*env), DataKey::TotalErrors)
                    &&& executions == store::counter(host::instance(*env), DataKey::TotalExecutions)
                    &&& errors == store::counter(host::instance(*env), DataKey::TotalErrors)
                },
                None => {
                    ||| !store::counter_readable(host::instance(*env), DataKey::TotalExecutions)
                    ||| !store::counter_readable(host::instance(*env), DataKey::TotalErrors)
                },
            },
    {
        match (
            store::read_counter(env, DataKey::TotalExecutions),
            store::read_counter(env, DataKey::TotalErrors),
        ) {
            (Some(executions), Some(errors)) => Some((executions, errors)),
            _ => None,
        }
    }

    /// Counts and publishes a failure: why it failed, and that it failed.
    fn log_error(
        env: &mut Env,
        target: &Address,
        function: &Symbol,
        error: ExecutionError,
        attempts: u32,
    )
        requires
            store::counter_readable(host::instance(*old(env)), DataKey::TotalErrors),
            store::counter(host::instance(*old(env)), DataKey::TotalErrors) < u64::MAX,
        ensures
            host::instance(*final(env)) == store::bumped(
                host::instance(*old(env)),
                DataKey::TotalErrors,
            ),
            host::published(*final(env)) == host::published(*old(env)).push(
                failure_event(*target, *function, error, attempts),
            ).push(execution_event(*target, *function, false, attempts)),
            host::calls(*final(env)) == host::calls(*old(env)),
            host::authenticated(*final(env)) == host::authenticated(*old(env)),
    {
        proof {
            lemma_topics();
        }
        Self::increment_counter(env, DataKey::TotalErrors);
        host::publish(
            env,
            "execution_error",
            EventData::Failure { target, function, code: error.code(), attempts },
        );
        host::publish(
            env,
            "execution_result",
            EventData::Execution { target, function, success: false, attempts },
        );
    }

    /// Raises a counter by one.
    fn increment_counter(env: &mut Env, key: DataKey)
        requires
            store::counter_readable(host::instance(*old(env)), key),
            store::counter(host::instance(*old(env)), key) < u64::MAX,
        ensures
            host::instance(*final(env)) == store::bumped(host::instance(*old(env)), key),
            quiet(*old(env), *final(env)),
    {
        proof {
            store::lemma_keys();
        }
        let value: u64 = match store::read_counter(env, key) {
            Some(n) => n,
            None => 0,
        };
        host::instance_set(env, key.name(), &Entry::U64(value + 1));
    }
}

} // verus!
