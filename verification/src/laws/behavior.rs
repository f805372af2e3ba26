//! What each function does, told by its arguments, its result and what the host
//! has on record.
//!
//! Each law here holds of every call: of all that a function takes, and of all
//! that it may then return and leave behind. None of them says how the answer is
//! found. Numbers, texts and storage keys stand in them as they are seen from
//! outside.
use crate::contract;
use crate::contract::RouterExecution;
use crate::fees;
use crate::host;
use crate::host::{CallOutcome, Entry, EntryView, EventData, EventDataView};
use crate::pipeline;
use crate::pipeline::Step;
use crate::store;
use crate::types::{
    DataKey, ExecutionError, ExecutionRequest, ExecutionResult, FeeEstimate, SimulationResult,
};
use soroban_sdk::{Address, Env, Symbol};
use vstd::prelude::*;

verus! {

/// A request is retried at most as often as it asks for and at most as often as
/// the cap allows, and the one or the other is reached.
pub proof fn law_budget_is_minimum(requested: u32, cap: u32, budget: u32)
    requires
        call_ensures(pipeline::effective_retries, (requested, cap), budget),
    ensures
        budget <= requested,
        budget <= cap,
        budget == requested || budget == cap,
{
}

/// The outcomes that may be retried are the contract errors 101 and 102.
pub proof fn law_transient_codes(outcome: CallOutcome, answer: bool)
    requires
        call_ensures(pipeline::is_transient, (outcome,), answer),
    ensures
        answer <==> outcome == CallOutcome::ContractError(101) || outcome
            == CallOutcome::ContractError(102),
{
}

/// A request goes on from its simulation exactly when the call has returned, and
/// fails with `SimulationFailed` otherwise.
pub proof fn law_step_after_simulation(outcome: CallOutcome, step: Step)
    requires
        call_ensures(pipeline::after_simulation, (outcome,), step),
    ensures
        step == Step::Proceed <==> outcome == CallOutcome::Succeeded,
        step == Step::Fail(ExecutionError::SimulationFailed) <==> outcome
            != CallOutcome::Succeeded,
{
}

/// A request is done exactly when an attempt has returned, tried again exactly
/// after a contract error 101 or 102 with no more attempts made than the budget,
/// and rejected in all other cases.
pub proof fn law_step_after_attempt(outcome: CallOutcome, attempts: u32, budget: u32, step: Step)
    requires
        call_ensures(pipeline::after_attempt, (outcome, attempts, budget), step),
    ensures
        step == Step::Proceed <==> outcome == CallOutcome::Succeeded,
        step == Step::Retry <==> attempts <= budget && (outcome == CallOutcome::ContractError(101)
            || outcome == CallOutcome::ContractError(102)),
        step == Step::Proceed || step == Step::Retry || step == Step::Fail(
            ExecutionError::ContractRejected,
        ),
{
}

/// The code of each error.
pub proof fn law_code_of_each_error(error: ExecutionError, code: u32)
    requires
        call_ensures(ExecutionError::code, (error,), code),
    ensures
        error == ExecutionError::NetworkTimeout <==> code == 101,
        error == ExecutionError::NetworkUnavailable <==> code == 102,
        error == ExecutionError::SimulationFailed <==> code == 201,
        error == ExecutionError::SimulationInsufficientResources <==> code == 202,
        error == ExecutionError::ContractRejected <==> code == 301,
        error == ExecutionError::ContractNotFound <==> code == 302,
        error == ExecutionError::ContractFunctionNotFound <==> code == 303,
        error == ExecutionError::AlreadyInitialized <==> code == 401,
        error == ExecutionError::NotInitialized <==> code == 402,
        error == ExecutionError::Unauthorized <==> code == 403,
        error == ExecutionError::InvalidConfig <==> code == 404,
        error == ExecutionError::InvalidAmount <==> code == 405,
{
}

/// The name of each storage key.
pub proof fn law_name_of_each_key(key: DataKey, name: &'static str)
    requires
        call_ensures(DataKey::name, (key,), name),
    ensures
        key == DataKey::Admin <==> name@ == "Admin"@,
        key == DataKey::MaxRetries <==> name@ == "MaxRetries"@,
        key == DataKey::TotalExecutions <==> name@ == "TotalExecutions"@,
        key == DataKey::TotalErrors <==> name@ == "TotalErrors"@,
{
    store::lemma_keys();
    assert(DataKey::Admin.text() == "Admin"@);
    assert(DataKey::MaxRetries.text() == "MaxRetries"@);
    assert(DataKey::TotalExecutions.text() == "TotalExecutions"@);
    assert(DataKey::TotalErrors.text() == "TotalErrors"@);
}

/// A fee is quoted for every positive amount and for no other; any other amount
/// is refused with `InvalidAmount`.
pub proof fn law_quoted_amounts(
    amount: i128,
    load: u32,
    quote: Result<FeeEstimate, ExecutionError>,
)
    requires
        call_ensures(fees::quote, (amount, load), quote),
    ensures
        quote is Ok <==> amount > 0,
        quote == Err::<FeeEstimate, ExecutionError>(ExecutionError::InvalidAmount) <==> amount <= 0,
{
}

/// The resource fee is the whole number of thousands in the amount, and 100 for
/// an amount with fewer than a hundred of them. The base fee is 100.
pub proof fn law_quoted_resource_fee(amount: i128, load: u32, estimate: FeeEstimate)
    requires
        call_ensures(fees::quote, (amount, load), Ok(estimate)),
    ensures
        estimate.base_fee == 100,
        amount >= 100_000 ==> 1000 * estimate.resource_fee <= amount < 1000 * (
        estimate.resource_fee + 1),
        amount < 100_000 ==> estimate.resource_fee == 100,
{
}

/// From a load of 8000 on, the multiplier is 200, the estimate says that the load
/// is high, and the total is twice the sum of both fees. Under a lower load the
/// multiplier is 100, and the total is that sum.
pub proof fn law_quoted_total(amount: i128, load: u32, estimate: FeeEstimate)
    requires
        call_ensures(fees::quote, (amount, load), Ok(estimate)),
    ensures
        estimate.high_load <==> load >= 8000,
        load >= 8000 ==> estimate.surge_multiplier == 200 && estimate.total_fee == 2 * (100
            + estimate.resource_fee),
        load < 8000 ==> estimate.surge_multiplier == 100 && estimate.total_fee == 100
            + estimate.resource_fee,
{
    let fee: int = 100 + estimate.resource_fee;
    let multiplier: int = estimate.surge_multiplier as int;
    if load >= 8000 {
        assert(fee * multiplier == fee * 200) by (nonlinear_arith)
            requires
                multiplier == 200,
        ;
    } else {
        assert(fee * multiplier == fee * 100) by (nonlinear_arith)
            requires
                multiplier == 100,
        ;
    }
}

/// Of two quotes, the one for at least the amount under at least the load is at
/// least as high. A thousand more on an amount of 100000 or more adds one to the
/// resource fee.
pub proof fn law_quotes_ordered(
    amount: i128,
    load: u32,
    estimate: FeeEstimate,
    larger_amount: i128,
    higher_load: u32,
    other: FeeEstimate,
)
    requires
        call_ensures(fees::quote, (amount, load), Ok(estimate)),
        call_ensures(fees::quote, (larger_amount, higher_load), Ok(other)),
        amount <= larger_amount,
        load <= higher_load,
    ensures
        estimate.resource_fee <= other.resource_fee,
        estimate.total_fee <= other.total_fee,
        amount >= 100_000 && larger_amount == amount + 1000 ==> other.resource_fee
            == estimate.resource_fee + 1,
{
    law_quoted_resource_fee(amount, load, estimate);
    law_quoted_resource_fee(larger_amount, higher_load, other);
    law_quoted_total(amount, load, estimate);
    law_quoted_total(larger_amount, higher_load, other);
}

/// An address is that of a contract exactly when its strkey begins with `C`.
pub proof fn law_contract_addresses(address: Address, answer: bool)
    requires
        call_ensures(contract::is_contract_address, (&address,), answer),
    ensures
        answer <==> host::strkey(address).len() > 0 && host::strkey(address)[0] == 'C',
{
}

/// The contract is initialized exactly when something is stored under `Admin`.
pub proof fn law_initialized_by_admin(env: Env, answer: bool)
    requires
        call_ensures(store::is_initialized, (&env,), answer),
    ensures
        answer <==> host::instance(env).contains_key("Admin"@),
{
}

/// Initializing succeeds exactly when nothing is stored under `Admin` and the cap
/// on retries is at most 5. It is refused with `AlreadyInitialized` exactly when
/// something is, and with `InvalidConfig` exactly when nothing is and the cap is
/// above 5.
pub proof fn law_initialize_accepts(
    env: &mut Env,
    admin: Address,
    max_retries: u32,
    result: Result<(), ExecutionError>,
)
    requires
        call_ensures(RouterExecution::initialize, (env, admin, max_retries), result),
    ensures
        result is Ok <==> !host::instance(*old(env)).contains_key("Admin"@) && max_retries <= 5,
        result == Err::<(), ExecutionError>(ExecutionError::InvalidConfig) <==> !host::instance(
            *old(env),
        ).contains_key("Admin"@) && max_retries > 5,
        result == Err::<(), ExecutionError>(ExecutionError::AlreadyInitialized) <==> host::instance(
            *old(env),
        ).contains_key("Admin"@),
{
}

/// Initializing, where it succeeds, stores the admin under `Admin`, the cap under
/// `MaxRetries` and zero under `TotalExecutions` and `TotalErrors`, and leaves
/// what is stored elsewhere alone. Where it is refused, nothing is stored. It
/// publishes nothing, makes no call and asks for no authorization.
pub proof fn law_initialize_stores(
    env: &mut Env,
    admin: Address,
    max_retries: u32,
    result: Result<(), ExecutionError>,
)
    requires
        call_ensures(RouterExecution::initialize, (env, admin, max_retries), result),
    ensures
        ({
            let before = host::instance(*old(env));
            let after = host::instance(*final(env));
            &&& result is Ok ==> {
                &&& after.contains_key("Admin"@)
                &&& after["Admin"@] == EntryView::Address(host::strkey(admin))
                &&& after.contains_key("MaxRetries"@)
                &&& after["MaxRetries"@] == EntryView::U32(max_retries)
                &&& after.contains_key("TotalExecutions"@)
                &&& after["TotalExecutions"@] == EntryView::U64(0)
                &&& after.contains_key("TotalErrors"@)
                &&& after["TotalErrors"@] == EntryView::U64(0)
            }
            &&& forall|key: Seq<char>|
                result is Err || (key != "Admin"@ && key != "MaxRetries"@ && key
                    != "TotalExecutions"@ && key != "TotalErrors"@) ==> {
                    &&& #[trigger] after.contains_key(key) <==> before.contains_key(key)
                    &&& after[key] == before[key]
                }
        }),
        host::published(*final(env)) == host::published(*old(env)),
        host::calls(*final(env)) == host::calls(*old(env)),
        host::authenticated(*final(env)) == host::authenticated(*old(env)),
        host::consenting(*final(env)) == host::consenting(*old(env)),
{
    store::lemma_keys();
    assert(DataKey::Admin.text() == "Admin"@);
    assert(DataKey::MaxRetries.text() == "MaxRetries"@);
    assert(DataKey::TotalExecutions.text() == "TotalExecutions"@);
    assert(DataKey::TotalErrors.text() == "TotalErrors"@);
}

/// Once initializing has succeeded, it is refused for good: a second call, with
/// whatever arguments, returns `AlreadyInitialized` and leaves the storage as the
/// first call left it.
pub proof fn law_second_initialize_refused(
    first: &mut Env,
    second: &mut Env,
    admin: Address,
    max_retries: u32,
    other_admin: Address,
    other_max_retries: u32,
    result: Result<(), ExecutionError>,
)
    requires
        call_ensures(RouterExecution::initialize, (first, admin, max_retries), Ok(())),
        *old(second) == *final(first),
        call_ensures(
            RouterExecution::initialize,
            (second, other_admin, other_max_retries),
            result,
        ),
    ensures
        result == Err::<(), ExecutionError>(ExecutionError::AlreadyInitialized),
        host::instance(*final(second)) == host::instance(*final(first)),
{
    law_initialize_stores(first, admin, max_retries, Ok(()));
    law_initialize_accepts(second, other_admin, other_max_retries, result);
    law_initialize_stores(second, other_admin, other_max_retries, result);
}

/// The admin that is read is the one stored under `Admin`, and it is read wherever
/// an address is stored there.
pub proof fn law_admin_read(env: Env, admin: Address)
    requires
        call_ensures(RouterExecution::admin, (&env,), admin),
    ensures
        host::instance(env)["Admin"@] == EntryView::Address(host::strkey(admin)),
        host::instance(env).contains_key("Admin"@) && host::instance(env)["Admin"@] is Address
            ==> call_requires(RouterExecution::admin, (&env,)),
{
}

/// There is an admin to be read exactly when an address is stored under `Admin`,
/// and it is that address.
pub proof fn law_admin_checked(env: Env, checked: Option<Address>)
    requires
        call_ensures(RouterExecution::admin_checked, (&env,), checked),
    ensures
        checked is Some <==> host::instance(env).contains_key("Admin"@) && host::instance(
            env,
        )["Admin"@] is Address,
        checked matches Some(admin) ==> host::instance(env)["Admin"@] == EntryView::Address(
            host::strkey(admin),
        ),
{
}

/// A counter is what is stored under the name of its key, and zero where nothing
/// is. It cannot be read exactly when something else than a 64-bit number is
/// stored there.
pub proof fn law_counter_read(
    env: Env,
    key: DataKey,
    name: &'static str,
    value: Option<u64>,
)
    requires
        call_ensures(DataKey::name, (key,), name),
        call_ensures(store::read_counter, (&env, key), value),
    ensures
        value is None <==> host::instance(env).contains_key(name@) && !(host::instance(env)[name@]
            is U64),
        value matches Some(n) ==> if host::instance(env).contains_key(name@) {
            host::instance(env)[name@] == EntryView::U64(n)
        } else {
            n == 0
        },
{
}

/// The statistics are what is stored under `TotalExecutions` and, second, under
/// `TotalErrors`, each of them zero where nothing is stored. They are read
/// wherever nothing but a 64-bit number is stored under either key.
pub proof fn law_stats_read(env: Env, totals: (u64, u64))
    requires
        call_ensures(RouterExecution::stats, (&env,), totals),
    ensures
        ({
            let stored = host::instance(env);
            let readable = (stored.contains_key("TotalExecutions"@)
                ==> stored["TotalExecutions"@] is U64) && (stored.contains_key("TotalErrors"@)
                ==> stored["TotalErrors"@] is U64);
            &&& readable ==> call_requires(RouterExecution::stats, (&env,))
            &&& readable && stored.contains_key("TotalExecutions"@) ==> stored["TotalExecutions"@]
                == EntryView::U64(totals.0)
            &&& readable && stored.contains_key("TotalErrors"@) ==> stored["TotalErrors"@]
                == EntryView::U64(totals.1)
            &&& !stored.contains_key("TotalExecutions"@) ==> totals.0 == 0
            &&& !stored.contains_key("TotalErrors"@) ==> totals.1 == 0
        }),
{
}

/// There are statistics to be read exactly when nothing but a 64-bit number is
/// stored under `TotalExecutions` and under `TotalErrors`.
pub proof fn law_stats_checked(env: Env, checked: Option<(u64, u64)>)
    requires
        call_ensures(RouterExecution::stats_checked, (&env,), checked),
    ensures
        ({
            let stored = host::instance(env);
            &&& checked is Some <==> (stored.contains_key("TotalExecutions"@)
                ==> stored["TotalExecutions"@] is U64) && (stored.contains_key("TotalErrors"@)
                ==> stored["TotalErrors"@] is U64)
            &&& checked matches Some((executions, errors)) ==> {
                &&& if stored.contains_key("TotalExecutions"@) {
                    stored["TotalExecutions"@] == EntryView::U64(executions)
                } else {
                    executions == 0
                }
                &&& if stored.contains_key("TotalErrors"@) {
                    stored["TotalErrors"@] == EntryView::U64(errors)
                } else {
                    errors == 0
                }
            }
        }),
{
}

/// What is read right after a successful initialization: the admin that was
/// given, and no execution and no error.
pub proof fn law_read_after_initialize(
    env: &mut Env,
    admin: Address,
    max_retries: u32,
    read: Address,
    totals: (u64, u64),
)
    requires
        call_ensures(RouterExecution::initialize, (env, admin, max_retries), Ok(())),
        call_ensures(RouterExecution::admin, (&*final(env),), read),
        call_ensures(RouterExecution::stats, (&*final(env),), totals),
    ensures
        host::strkey(read) == host::strkey(admin),
        totals == (0u64, 0u64),
{
    law_initialize_stores(env, admin, max_retries, Ok(()));
}

/// A simulation is refused with `NotInitialized` exactly when nothing is stored
/// under `Admin`, and reported on otherwise. A refused one makes no call and
/// publishes nothing. The storage stays as it is either way.
pub proof fn law_simulation_refused(
    env: &mut Env,
    caller: Address,
    target: Address,
    function: Symbol,
    result: Result<SimulationResult, ExecutionError>,
)
    requires
        call_ensures(RouterExecution::simulate, (env, caller, target, function), result)
            || call_ensures(RouterExecution::simulate_authorized, (env, target, function), result)
            || call_ensures(
            RouterExecution::simulate_checked,
            (env, target, function),
            Some(result),
        ),
    ensures
        result is Ok <==> host::instance(*old(env)).contains_key("Admin"@),
        result is Err ==> {
            &&& result == Err::<SimulationResult, ExecutionError>(ExecutionError::NotInitialized)
            &&& host::calls(*final(env)) == host::calls(*old(env))
            &&& host::published(*final(env)) == host::published(*old(env))
        },
        host::instance(*final(env)) == host::instance(*old(env)),
{
}

/// A simulation makes one call, to the function of the target, and is reported as
/// a success exactly when that call has returned. One that ended in a contract
/// error, whatever its code, or that was aborted, is reported as one that would
/// fail. The message and the event say the same as the report.
pub proof fn law_simulation_reports_its_call(
    env: &mut Env,
    caller: Address,
    target: Address,
    function: Symbol,
    report: SimulationResult,
)
    requires
        call_ensures(RouterExecution::simulate, (env, caller, target, function), Ok(report))
            || call_ensures(
            RouterExecution::simulate_authorized,
            (env, target, function),
            Ok(report),
        ) || call_ensures(
            RouterExecution::simulate_checked,
            (env, target, function),
            Some(Ok(report)),
        ),
    ensures
        ({
            let made = host::calls(*final(env));
            let outcome = made.last().outcome;
            &&& made.len() == host::calls(*old(env)).len() + 1
            &&& made.drop_last() == host::calls(*old(env))
            &&& made.last().target == host::strkey(target)
            &&& made.last().function == host::symbol_text(function)
            &&& report.target == target
            &&& report.function == function
            &&& report.success <==> outcome == CallOutcome::Succeeded
            &&& report.would_fail <==> outcome != CallOutcome::Succeeded
            &&& forall|code: u32| outcome == CallOutcome::ContractError(code) ==> report.would_fail
            &&& outcome == CallOutcome::Aborted ==> report.would_fail
            &&& outcome == CallOutcome::Succeeded ==> host::string_text(report.message)
                == "simulation succeeded"@
            &&& outcome != CallOutcome::Succeeded ==> host::string_text(report.message)
                == "simulation failed: transaction would be rejected"@
        }),
        ({
            let events = host::published(*final(env));
            &&& events.len() == host::published(*old(env)).len() + 1
            &&& events.drop_last() == host::published(*old(env))
            &&& events.last().topic == "simulation_result"@
            &&& events.last().data == (EventDataView::Simulation {
                target: host::strkey(report.target),
                function: host::symbol_text(report.function),
                success: report.success,
            })
        }),
{
    assert(host::calls(*final(env)).drop_last() =~= host::calls(*old(env)));
    assert(host::published(*final(env)).drop_last() =~= host::published(*old(env)));
}

/// What is reported of a call that ended in some way: a success where it has
/// returned, and otherwise that it would fail.
pub proof fn law_report(
    env: Env,
    target: Address,
    function: Symbol,
    outcome: CallOutcome,
    report: SimulationResult,
)
    requires
        call_ensures(
            RouterExecution::simulation_report,
            (&env, target, function, outcome),
            report,
        ),
    ensures
        report.target == target,
        report.function == function,
        report.success <==> outcome == CallOutcome::Succeeded,
        report.would_fail <==> outcome != CallOutcome::Succeeded,
        report.success ==> host::string_text(report.message) == "simulation succeeded"@,
        report.would_fail ==> host::string_text(report.message)
            == "simulation failed: transaction would be rejected"@,
{
}

/// A simulation can be run to its end exactly when it will be refused, because
/// nothing is stored under `Admin`, or when the target is a contract.
pub proof fn law_simulation_possible(env: Env, target: Address, answer: bool)
    requires
        call_ensures(RouterExecution::can_simulate, (&env, &target), answer),
    ensures
        answer <==> !host::instance(env).contains_key("Admin"@) || (host::strkey(target).len() > 0
            && host::strkey(target)[0] == 'C'),
{
}

/// A simulation that asks for authorization has that of the caller accepted, once;
/// the others ask for none.
pub proof fn law_simulation_authorized(
    env: &mut Env,
    caller: Address,
    target: Address,
    function: Symbol,
    result: Result<SimulationResult, ExecutionError>,
    checked: Option<Result<SimulationResult, ExecutionError>>,
)
    ensures
        call_ensures(RouterExecution::simulate, (env, caller, target, function), result)
            ==> host::authenticated(*final(env)) == host::authenticated(*old(env)).push(
            host::strkey(caller),
        ),
        call_ensures(RouterExecution::simulate_authorized, (env, target, function), result)
            ==> host::authenticated(*final(env)) == host::authenticated(*old(env)),
        call_ensures(RouterExecution::simulate_checked, (env, target, function), checked)
            ==> host::authenticated(*final(env)) == host::authenticated(*old(env)),
{
}

/// A simulation is admitted wherever nothing is stored under `Admin` or the target
/// is a contract; one that asks for authorization, where the caller consents.
pub proof fn law_simulation_admitted(
    env: &mut Env,
    caller: Address,
    target: Address,
    function: Symbol,
)
    requires
        !host::instance(*old(env)).contains_key("Admin"@) || (host::strkey(target).len() > 0
            && host::strkey(target)[0] == 'C'),
    ensures
        call_requires(RouterExecution::simulate_authorized, (env, target, function)),
        host::consenting(*old(env)).contains(host::strkey(caller)) ==> call_requires(
            RouterExecution::simulate,
            (env, caller, target, function),
        ),
{
}

/// A simulation that is checked first does nothing exactly when something is
/// stored under `Admin` and the target is no contract.
pub proof fn law_simulation_checked(
    env: &mut Env,
    target: Address,
    function: Symbol,
    checked: Option<Result<SimulationResult, ExecutionError>>,
)
    requires
        call_ensures(RouterExecution::simulate_checked, (env, target, function), checked),
    ensures
        checked is None <==> host::instance(*old(env)).contains_key("Admin"@) && (host::strkey(
            target,
        ).len() == 0 || host::strkey(target)[0] != 'C'),
        checked is None ==> *final(env) == *old(env),
{
}

/// A fee is estimated exactly when something is stored under `Admin` and the
/// amount is positive. Where nothing is stored there, the estimate is refused with
/// `NotInitialized`, and otherwise with `InvalidAmount`.
pub proof fn law_estimate_refused(
    env: &mut Env,
    target: Address,
    function: Symbol,
    amount: i128,
    load: u32,
    result: Result<FeeEstimate, ExecutionError>,
)
    requires
        call_ensures(RouterExecution::estimate_fee, (env, target, function, amount, load), result),
    ensures
        result is Ok <==> host::instance(*old(env)).contains_key("Admin"@) && amount > 0,
        result == Err::<FeeEstimate, ExecutionError>(ExecutionError::NotInitialized)
            <==> !host::instance(*old(env)).contains_key("Admin"@),
        result == Err::<FeeEstimate, ExecutionError>(ExecutionError::InvalidAmount)
            <==> host::instance(*old(env)).contains_key("Admin"@) && amount <= 0,
{
}

/// An estimate has a base fee of 100. Its resource fee is the whole number of
/// thousands in the amount, and 100 for an amount with fewer than a hundred of
/// them. Its total is the sum of both fees, and twice that from a load of 8000 on;
/// the multiplier and the mark for high load say which. The contract and the
/// function to be called make no difference.
pub proof fn law_estimate(
    env: &mut Env,
    target: Address,
    function: Symbol,
    amount: i128,
    load: u32,
    estimate: FeeEstimate,
)
    requires
        call_ensures(
            RouterExecution::estimate_fee,
            (env, target, function, amount, load),
            Ok(estimate),
        ),
    ensures
        estimate.base_fee == 100,
        amount >= 100_000 ==> 1000 * estimate.resource_fee <= amount < 1000 * (
        estimate.resource_fee + 1),
        amount < 100_000 ==> estimate.resource_fee == 100,
        estimate.high_load <==> load >= 8000,
        load >= 8000 ==> estimate.surge_multiplier == 200 && estimate.total_fee == 2 * (100
            + estimate.resource_fee),
        load < 8000 ==> estimate.surge_multiplier == 100 && estimate.total_fee == 100
            + estimate.resource_fee,
{
    let fee: int = 100 + estimate.resource_fee;
    let multiplier: int = estimate.surge_multiplier as int;
    if load >= 8000 {
        assert(fee * multiplier == fee * 200) by (nonlinear_arith)
            requires
                multiplier == 200,
        ;
    } else {
        assert(fee * multiplier == fee * 100) by (nonlinear_arith)
            requires
                multiplier == 100,
        ;
    }
}

/// An estimate is published, once, with its total and its mark for high load; a
/// refusal is not. Nothing else changes: no storage, no call, no authorization.
pub proof fn law_estimate_published(
    env: &mut Env,
    target: Address,
    function: Symbol,
    amount: i128,
    load: u32,
    result: Result<FeeEstimate, ExecutionError>,
)
    requires
        call_ensures(RouterExecution::estimate_fee, (env, target, function, amount, load), result),
    ensures
        ({
            let events = host::published(*final(env));
            match result {
                Ok(estimate) => {
                    &&& events.len() == host::published(*old(env)).len() + 1
                    &&& events.drop_last() == host::published(*old(env))
                    &&& events.last().topic == "fee_estimated"@
                    &&& events.last().data == (EventDataView::Fee {
                        total_fee: estimate.total_fee,
                        high_load: estimate.high_load,
                    })
                },
                Err(_) => events == host::published(*old(env)),
            }
        }),
        host::instance(*final(env)) == host::instance(*old(env)),
        host::calls(*final(env)) == host::calls(*old(env)),
        host::authenticated(*final(env)) == host::authenticated(*old(env)),
        host::consenting(*final(env)) == host::consenting(*old(env)),
{
    if result is Ok {
        assert(host::published(*final(env)).drop_last() =~= host::published(*old(env)));
    }
}

/// The contract estimates what the fee schedule quotes.
pub proof fn law_estimate_is_quote(
    env: &mut Env,
    target: Address,
    function: Symbol,
    amount: i128,
    load: u32,
    result: Result<FeeEstimate, ExecutionError>,
    quote: Result<FeeEstimate, ExecutionError>,
)
    requires
        host::instance(*old(env)).contains_key("Admin"@),
        call_ensures(RouterExecution::estimate_fee, (env, target, function, amount, load), result),
        call_ensures(fees::quote, (amount, load), quote),
    ensures
        result == quote,
{
}

/// An execution is refused with `NotInitialized` exactly when nothing is stored
/// under `MaxRetries`. A refused one makes no call, publishes nothing and stores
/// nothing.
pub proof fn law_execution_refused(
    env: &mut Env,
    caller: Address,
    request: ExecutionRequest,
    result: Result<ExecutionResult, ExecutionError>,
)
    requires
        call_ensures(RouterExecution::execute, (env, caller, request), result) || call_ensures(
            RouterExecution::execute_authorized,
            (env, request),
            result,
        ) || call_ensures(RouterExecution::execute_checked, (env, request), Some(result)),
    ensures
        result == Err::<ExecutionResult, ExecutionError>(ExecutionError::NotInitialized)
            <==> !host::instance(*old(env)).contains_key("MaxRetries"@),
        !host::instance(*old(env)).contains_key("MaxRetries"@) ==> {
            &&& host::calls(*final(env)) == host::calls(*old(env))
            &&& host::published(*final(env)) == host::published(*old(env))
            &&& host::instance(*final(env)) == host::instance(*old(env))
        },
{
}

/// A run makes at least one call, and every call that it makes is to the request's
/// function of its target. The calls made before stay on record.
pub proof fn law_run_calls(
    env: &mut Env,
    caller: Address,
    request: ExecutionRequest,
    result: Result<ExecutionResult, ExecutionError>,
)
    requires
        call_ensures(RouterExecution::execute, (env, caller, request), result) || call_ensures(
            RouterExecution::execute_authorized,
            (env, request),
            result,
        ) || call_ensures(RouterExecution::execute_checked, (env, request), Some(result)),
        host::instance(*old(env)).contains_key("MaxRetries"@),
    ensures
        ({
            let made = host::calls(*final(env));
            let start = host::calls(*old(env)).len() as int;
            &&& start < made.len()
            &&& forall|i: int| 0 <= i < start ==> #[trigger] made[i] == host::calls(*old(env))[i]
            &&& forall|i: int|
                start <= i < made.len() ==> (#[trigger] made[i]).target == host::strkey(
                    request.target,
                ) && made[i].function == host::symbol_text(request.function)
        }),
{
}

/// Where a simulation is asked for, the first call is the simulation. Where it does
/// not return, it is the only call; where it does, at least one call follows.
/// `SimulationFailed` is returned exactly when a simulation was asked for and did
/// not return.
pub proof fn law_run_simulation(
    env: &mut Env,
    caller: Address,
    request: ExecutionRequest,
    result: Result<ExecutionResult, ExecutionError>,
)
    requires
        call_ensures(RouterExecution::execute, (env, caller, request), result) || call_ensures(
            RouterExecution::execute_authorized,
            (env, request),
            result,
        ) || call_ensures(RouterExecution::execute_checked, (env, request), Some(result)),
        host::instance(*old(env)).contains_key("MaxRetries"@),
    ensures
        ({
            let made = host::calls(*final(env));
            let start = host::calls(*old(env)).len() as int;
            let blocked = request.simulate_first && made[start].outcome != CallOutcome::Succeeded;
            &&& result == Err::<ExecutionResult, ExecutionError>(ExecutionError::SimulationFailed)
                <==> blocked
            &&& blocked ==> made.len() == start + 1
            &&& request.simulate_first && !blocked ==> made.len() >= start + 2
        }),
{
}

/// Past the simulation, a call is followed by another only when it ended in the
/// contract error 101 or 102.
pub proof fn law_run_retries(
    env: &mut Env,
    caller: Address,
    request: ExecutionRequest,
    result: Result<ExecutionResult, ExecutionError>,
    i: int,
)
    requires
        call_ensures(RouterExecution::execute, (env, caller, request), result) || call_ensures(
            RouterExecution::execute_authorized,
            (env, request),
            result,
        ) || call_ensures(RouterExecution::execute_checked, (env, request), Some(result)),
        host::instance(*old(env)).contains_key("MaxRetries"@),
        host::calls(*old(env)).len() + (if request.simulate_first { 1int } else { 0int }) <= i,
        i + 1 < host::calls(*final(env)).len(),
    ensures
        host::calls(*final(env))[i].outcome == CallOutcome::ContractError(101) || host::calls(
            *final(env),
        )[i].outcome == CallOutcome::ContractError(102),
{
    let outcomes = contract::outcomes_between(*old(env), *final(env));
    let place = i - host::calls(*old(env)).len();
    assert(outcomes[place] == host::calls(*final(env))[i].outcome);
    if request.simulate_first {
        assert(outcomes.skip(1)[place - 1] == outcomes[place]);
    }
}

/// Past the simulation, a run makes at most one call more than the retries that the
/// request asks for, and at most one more than the cap.
pub proof fn law_run_attempts_bounded(
    env: &mut Env,
    caller: Address,
    request: ExecutionRequest,
    cap: u32,
    result: Result<ExecutionResult, ExecutionError>,
)
    requires
        call_ensures(RouterExecution::execute, (env, caller, request), result) || call_ensures(
            RouterExecution::execute_authorized,
            (env, request),
            result,
        ) || call_ensures(RouterExecution::execute_checked, (env, request), Some(result)),
        host::instance(*old(env)).contains_key("MaxRetries"@),
        host::instance(*old(env))["MaxRetries"@] == EntryView::U32(cap),
    ensures
        ({
            let made = host::calls(*final(env));
            let start = host::calls(*old(env)).len() as int;
            let first = start + (if request.simulate_first { 1int } else { 0int });
            &&& made.len() - first <= request.max_retries + 1
            &&& made.len() - first <= cap + 1
        }),
{
}

/// A run is not given up on a contract error 101 or 102 before the retries are used
/// up: where it ends in one, it has made exactly one attempt more than the retries
/// that the request asks for, or, where the cap is lower, than the cap.
pub proof fn law_run_retries_used_up(
    env: &mut Env,
    caller: Address,
    request: ExecutionRequest,
    cap: u32,
)
    requires
        call_ensures(
            RouterExecution::execute,
            (env, caller, request),
            Err(ExecutionError::ContractRejected),
        ) || call_ensures(
            RouterExecution::execute_authorized,
            (env, request),
            Err(ExecutionError::ContractRejected),
        ) || call_ensures(
            RouterExecution::execute_checked,
            (env, request),
            Some(Err(ExecutionError::ContractRejected)),
        ),
        host::instance(*old(env)).contains_key("MaxRetries"@),
        host::instance(*old(env))["MaxRetries"@] == EntryView::U32(cap),
        host::calls(*final(env)).last().outcome == CallOutcome::ContractError(101) || host::calls(
            *final(env),
        ).last().outcome == CallOutcome::ContractError(102),
    ensures
        ({
            let made = host::calls(*final(env));
            let start = host::calls(*old(env)).len() as int;
            let first = start + (if request.simulate_first { 1int } else { 0int });
            &&& request.max_retries <= cap ==> made.len() - first == request.max_retries + 1
            &&& request.max_retries > cap ==> made.len() - first == cap + 1
        }),
{
    let outcomes = contract::outcomes_between(*old(env), *final(env));
    if request.simulate_first {
        assert(outcomes.skip(1).last() == outcomes.last() || outcomes.len() < 2);
    }
}

/// A run that its simulation has not blocked succeeds exactly when its last call has
/// returned, and fails with `ContractRejected` exactly when it has not.
pub proof fn law_run_ends_with_its_last_call(
    env: &mut Env,
    caller: Address,
    request: ExecutionRequest,
    result: Result<ExecutionResult, ExecutionError>,
)
    requires
        call_ensures(RouterExecution::execute, (env, caller, request), result) || call_ensures(
            RouterExecution::execute_authorized,
            (env, request),
            result,
        ) || call_ensures(RouterExecution::execute_checked, (env, request), Some(result)),
        host::instance(*old(env)).contains_key("MaxRetries"@),
    ensures
        ({
            let made = host::calls(*final(env));
            let start = host::calls(*old(env)).len() as int;
            let blocked = request.simulate_first && made[start].outcome != CallOutcome::Succeeded;
            &&& result is Ok <==> !blocked && made.last().outcome == CallOutcome::Succeeded
            &&& result == Err::<ExecutionResult, ExecutionError>(ExecutionError::ContractRejected)
                <==> !blocked && made.last().outcome != CallOutcome::Succeeded
        }),
{
}

/// The result of a run says that it succeeded, names the target and the function of
/// the request, says whether a simulation was asked for, and counts the calls past
/// the simulation.
pub proof fn law_run_result(
    env: &mut Env,
    caller: Address,
    request: ExecutionRequest,
    cap: u32,
    done: ExecutionResult,
)
    requires
        call_ensures(RouterExecution::execute, (env, caller, request), Ok(done)) || call_ensures(
            RouterExecution::execute_authorized,
            (env, request),
            Ok(done),
        ) || call_ensures(RouterExecution::execute_checked, (env, request), Some(Ok(done))),
        host::instance(*old(env)).contains_key("MaxRetries"@),
        host::instance(*old(env))["MaxRetries"@] == EntryView::U32(cap),
        request.max_retries < u32::MAX || cap < u32::MAX,
    ensures
        done.success == true,
        done.simulated == request.simulate_first,
        done.target == request.target,
        done.function == request.function,
        done.attempts == host::calls(*final(env)).len() - host::calls(*old(env)).len() - (
        if request.simulate_first { 1int } else { 0int }),
        done.attempts >= 1,
{
    let outcomes = contract::outcomes_between(*old(env), *final(env));
    if request.simulate_first {
        assert(outcomes.skip(1).last() == outcomes.last() || outcomes.len() < 2);
    }
}

/// A run that succeeds publishes one event, an `execution_result` that says the same
/// as the result that is returned.
pub proof fn law_run_success_published(
    env: &mut Env,
    caller: Address,
    request: ExecutionRequest,
    done: ExecutionResult,
)
    requires
        call_ensures(RouterExecution::execute, (env, caller, request), Ok(done)) || call_ensures(
            RouterExecution::execute_authorized,
            (env, request),
            Ok(done),
        ) || call_ensures(RouterExecution::execute_checked, (env, request), Some(Ok(done))),
    ensures
        ({
            let events = host::published(*final(env));
            &&& events.len() == host::published(*old(env)).len() + 1
            &&& events.drop_last() == host::published(*old(env))
            &&& events.last().topic == "execution_result"@
            &&& events.last().data == (EventDataView::Execution {
                target: host::strkey(done.target),
                function: host::symbol_text(done.function),
                success: done.success,
                attempts: done.attempts,
            })
            &&& events.last().data->Execution_success == true
        }),
{
    assert(host::published(*final(env)).drop_last() =~= host::published(*old(env)));
}

/// A run that fails publishes two events. The first is an `execution_error` with the
/// code of the error that is returned, 201 for a simulation that failed and 301 for a
/// rejection. The second is an `execution_result` that says that it did not succeed.
/// Both name the target and the function of the request and count the calls past the
/// simulation.
pub proof fn law_run_failure_published(
    env: &mut Env,
    caller: Address,
    request: ExecutionRequest,
    cap: u32,
    error: ExecutionError,
)
    requires
        call_ensures(RouterExecution::execute, (env, caller, request), Err(error)) || call_ensures(
            RouterExecution::execute_authorized,
            (env, request),
            Err(error),
        ) || call_ensures(RouterExecution::execute_checked, (env, request), Some(Err(error))),
        host::instance(*old(env)).contains_key("MaxRetries"@),
        host::instance(*old(env))["MaxRetries"@] == EntryView::U32(cap),
        request.max_retries < u32::MAX || cap < u32::MAX,
    ensures
        ({
            let made = host::calls(*final(env));
            let start = host::calls(*old(env)).len() as int;
            let first = start + (if request.simulate_first { 1int } else { 0int });
            let events = host::published(*final(env));
            let old_events = host::published(*old(env));
            &&& events.len() == old_events.len() + 2
            &&& forall|i: int| 0 <= i < old_events.len() ==> #[trigger] events[i] == old_events[i]
            &&& events[old_events.len() as int].topic == "execution_error"@
            &&& events[old_events.len() as int].data matches EventDataView::Failure {
                target,
                function,
                code,
                attempts,
            } && {
                &&& target == host::strkey(request.target)
                &&& function == host::symbol_text(request.function)
                &&& error == ExecutionError::SimulationFailed && code == 201 || error
                    == ExecutionError::ContractRejected && code == 301
                &&& attempts == made.len() - first
            }
            &&& events.last().topic == "execution_result"@
            &&& events.last().data matches EventDataView::Execution {
                target,
                function,
                success,
                attempts,
            } && {
                &&& target == host::strkey(request.target)
                &&& function == host::symbol_text(request.function)
                &&& success == false
                &&& attempts == made.len() - first
            }
        }),
{
    let outcomes = contract::outcomes_between(*old(env), *final(env));
    if request.simulate_first {
        assert(outcomes.skip(1).last() == outcomes.last() || outcomes.len() < 2);
    }
}

/// A run is counted once. Where it succeeds, what is stored under `TotalExecutions`
/// is one more than before; where it fails, what is stored under `TotalErrors` is. A
/// counter that was not stored counts from zero. Nothing else that is stored
/// changes.
pub proof fn law_run_counted(
    env: &mut Env,
    caller: Address,
    request: ExecutionRequest,
    result: Result<ExecutionResult, ExecutionError>,
    executions: u64,
    errors: u64,
)
    requires
        call_ensures(RouterExecution::execute, (env, caller, request), result) || call_ensures(
            RouterExecution::execute_authorized,
            (env, request),
            result,
        ) || call_ensures(RouterExecution::execute_checked, (env, request), Some(result)),
        host::instance(*old(env)).contains_key("MaxRetries"@),
        executions < u64::MAX,
        errors < u64::MAX,
        if host::instance(*old(env)).contains_key("TotalExecutions"@) {
            host::instance(*old(env))["TotalExecutions"@] == EntryView::U64(executions)
        } else {
            executions == 0
        },
        if host::instance(*old(env)).contains_key("TotalErrors"@) {
            host::instance(*old(env))["TotalErrors"@] == EntryView::U64(errors)
        } else {
            errors == 0
        },
    ensures
        ({
            let before = host::instance(*old(env));
            let after = host::instance(*final(env));
            &&& result is Ok ==> {
                &&& after.contains_key("TotalExecutions"@)
                &&& after["TotalExecutions"@] == EntryView::U64((executions + 1) as u64)
            }
            &&& result is Err ==> {
                &&& after.contains_key("TotalErrors"@)
                &&& after["TotalErrors"@] == EntryView::U64((errors + 1) as u64)
            }
            &&& forall|key: Seq<char>|
                (result is Ok ==> key != "TotalExecutions"@) && (result is Err ==> key
                    != "TotalErrors"@) ==> {
                    &&& #[trigger] after.contains_key(key) <==> before.contains_key(key)
                    &&& after[key] == before[key]
                }
        }),
{
}

/// Between the statistics before a run and those after it, executions have gone up by
/// one where the run succeeded, and errors have where it failed.
pub proof fn law_stats_after_run(
    env: &mut Env,
    caller: Address,
    request: ExecutionRequest,
    result: Result<ExecutionResult, ExecutionError>,
    totals: (u64, u64),
    later: (u64, u64),
)
    requires
        call_ensures(RouterExecution::execute, (env, caller, request), result) || call_ensures(
            RouterExecution::execute_authorized,
            (env, request),
            result,
        ) || call_ensures(RouterExecution::execute_checked, (env, request), Some(result)),
        host::instance(*old(env)).contains_key("MaxRetries"@),
        call_ensures(RouterExecution::stats_checked, (&*old(env),), Some(totals)),
        call_ensures(RouterExecution::stats_checked, (&*final(env),), Some(later)),
        totals.0 < u64::MAX,
        totals.1 < u64::MAX,
    ensures
        result is Ok ==> later.0 == totals.0 + 1 && later.1 == totals.1,
        result is Err ==> later.0 == totals.0 && later.1 == totals.1 + 1,
{
    law_stats_checked(*old(env), Some(totals));
    law_stats_checked(*final(env), Some(later));
    law_run_counted(env, caller, request, result, totals.0, totals.1);
    store::lemma_keys();
    assert(DataKey::TotalExecutions.text() == "TotalExecutions"@);
    assert(DataKey::TotalErrors.text() == "TotalErrors"@);
}

/// The cap that the contract was initialized with holds of the runs that follow: past
/// the simulation, a run makes at most one call more than the cap, and so at most
/// six.
pub proof fn law_run_after_initialize(
    first: &mut Env,
    env: &mut Env,
    admin: Address,
    max_retries: u32,
    caller: Address,
    request: ExecutionRequest,
    result: Result<ExecutionResult, ExecutionError>,
)
    requires
        call_ensures(RouterExecution::initialize, (first, admin, max_retries), Ok(())),
        *old(env) == *final(first),
        call_ensures(RouterExecution::execute, (env, caller, request), result) || call_ensures(
            RouterExecution::execute_authorized,
            (env, request),
            result,
        ) || call_ensures(RouterExecution::execute_checked, (env, request), Some(result)),
    ensures
        ({
            let attempts = host::calls(*final(env)).len() - host::calls(*old(env)).len() - (
            if request.simulate_first { 1int } else { 0int });
            &&& attempts <= max_retries + 1
            &&& attempts <= 6
        }),
{
    law_initialize_accepts(first, admin, max_retries, Ok(()));
    law_initialize_stores(first, admin, max_retries, Ok(()));
    law_run_attempts_bounded(env, caller, request, max_retries, result);
}

/// A request can be run to its end exactly when nothing is stored under `MaxRetries`,
/// so that it will be refused, or when a 32-bit number is stored there, the attempts
/// can be counted in 32 bits, the target is a contract, and what is stored under
/// `TotalExecutions` and under `TotalErrors` is, if anything, a 64-bit number that can
/// still be raised.
pub proof fn law_execution_possible(
    env: Env,
    request: ExecutionRequest,
    answer: bool,
)
    requires
        call_ensures(RouterExecution::can_execute, (&env, &request), answer),
    ensures
        ({
            let stored = host::instance(env);
            answer <==> (stored.contains_key("MaxRetries"@) ==> {
                &&& stored["MaxRetries"@] matches EntryView::U32(cap) && (request.max_retries
                    < u32::MAX || cap < u32::MAX)
                &&& host::strkey(request.target).len() > 0 && host::strkey(request.target)[0] == 'C'
                &&& stored.contains_key("TotalExecutions"@)
                    ==> (stored["TotalExecutions"@] matches EntryView::U64(n) && n < u64::MAX)
                &&& stored.contains_key("TotalErrors"@) ==> (stored["TotalErrors"@] matches
                    EntryView::U64(n) && n < u64::MAX)
            })
        }),
{
}

/// A request that can be run to its end is admitted; where authorization is asked
/// for, if the caller consents.
pub proof fn law_execution_admitted(
    env: &mut Env,
    caller: Address,
    request: ExecutionRequest,
)
    requires
        ({
            let stored = host::instance(*old(env));
            (stored.contains_key("MaxRetries"@) ==> {
                &&& stored["MaxRetries"@] matches EntryView::U32(cap) && (request.max_retries
                    < u32::MAX || cap < u32::MAX)
                &&& host::strkey(request.target).len() > 0 && host::strkey(request.target)[0] == 'C'
                &&& stored.contains_key("TotalExecutions"@)
                    ==> (stored["TotalExecutions"@] matches EntryView::U64(n) && n < u64::MAX)
                &&& stored.contains_key("TotalErrors"@) ==> (stored["TotalErrors"@] matches
                    EntryView::U64(n) && n < u64::MAX)
            })
        }),
    ensures
        call_requires(RouterExecution::execute_authorized, (env, request)),
        host::consenting(*old(env)).contains(host::strkey(caller)) ==> call_requires(
            RouterExecution::execute,
            (env, caller, request),
        ),
{
}

/// A request that is checked first is run exactly when it can be run to its end, and
/// nothing is done otherwise.
pub proof fn law_execution_checked(
    env: &mut Env,
    request: ExecutionRequest,
    checked: Option<Result<ExecutionResult, ExecutionError>>,
)
    requires
        call_ensures(RouterExecution::execute_checked, (env, request), checked),
    ensures
        ({
            let stored = host::instance(*old(env));
            checked is Some <==> (stored.contains_key("MaxRetries"@) ==> {
                &&& stored["MaxRetries"@] matches EntryView::U32(cap) && (request.max_retries
                    < u32::MAX || cap < u32::MAX)
                &&& host::strkey(request.target).len() > 0 && host::strkey(request.target)[0] == 'C'
                &&& stored.contains_key("TotalExecutions"@)
                    ==> (stored["TotalExecutions"@] matches EntryView::U64(n) && n < u64::MAX)
                &&& stored.contains_key("TotalErrors"@) ==> (stored["TotalErrors"@] matches
                    EntryView::U64(n) && n < u64::MAX)
            })
        }),
        checked is None ==> *final(env) == *old(env),
{
}

/// An execution that asks for authorization has that of the caller accepted, once;
/// the others ask for none.
pub proof fn law_execution_authorized(
    env: &mut Env,
    caller: Address,
    request: ExecutionRequest,
    result: Result<ExecutionResult, ExecutionError>,
    checked: Option<Result<ExecutionResult, ExecutionError>>,
)
    ensures
        call_ensures(RouterExecution::execute, (env, caller, request), result)
            ==> host::authenticated(*final(env)) == host::authenticated(*old(env)).push(
            host::strkey(caller),
        ),
        call_ensures(RouterExecution::execute_authorized, (env, request), result)
            ==> host::authenticated(*final(env)) == host::authenticated(*old(env)),
        call_ensures(RouterExecution::execute_checked, (env, request), checked)
            ==> host::authenticated(*final(env)) == host::authenticated(*old(env)),
{
}

/// An entry of the storage holds the value that it was made of: an address by its
/// strkey, a number as it is.
pub proof fn law_entry_holds(address: Address, small: u32, large: u64)
    ensures
        Entry::Address(address)@ == EntryView::Address(host::strkey(address)),
        Entry::U32(small)@ == EntryView::U32(small),
        Entry::U64(large)@ == EntryView::U64(large),
        Entry::Other@ == EntryView::Other,
{
}

/// The data of an event holds the values that it was made of, each in its place.
pub proof fn law_event_holds(
    address: Address,
    symbol: Symbol,
    flag: bool,
    code: u32,
    attempts: u32,
    fee: i128,
)
    ensures
        (EventData::Execution { target: &address, function: &symbol, success: flag, attempts })@
            == (EventDataView::Execution {
            target: host::strkey(address),
            function: host::symbol_text(symbol),
            success: flag,
            attempts,
        }),
        (EventData::Failure { target: &address, function: &symbol, code, attempts })@ == (
        EventDataView::Failure {
            target: host::strkey(address),
            function: host::symbol_text(symbol),
            code,
            attempts,
        }),
        (EventData::Fee { total_fee: fee, high_load: flag })@ == (EventDataView::Fee {
            total_fee: fee,
            high_load: flag,
        }),
        (EventData::Simulation { target: &address, function: &symbol, success: flag })@ == (
        EventDataView::Simulation {
            target: host::strkey(address),
            function: host::symbol_text(symbol),
            success: flag,
        }),
{
}

/// A copy of a request, of a result or of a report has all the parts of what it was
/// made from.
pub proof fn law_copies(
    request: ExecutionRequest,
    other_request: ExecutionRequest,
    done: ExecutionResult,
    other_done: ExecutionResult,
    report: SimulationResult,
    other_report: SimulationResult,
)
    requires
        call_ensures(ExecutionRequest::clone, (&request,), other_request),
        call_ensures(ExecutionResult::clone, (&done,), other_done),
        call_ensures(SimulationResult::clone, (&report,), other_report),
    ensures
        other_request.target == request.target,
        other_request.function == request.function,
        other_request.simulate_first == request.simulate_first,
        other_request.max_retries == request.max_retries,
        other_done.target == done.target,
        other_done.function == done.function,
        other_done.success == done.success,
        other_done.attempts == done.attempts,
        other_done.simulated == done.simulated,
        other_report.target == report.target,
        other_report.function == report.function,
        other_report.success == report.success,
        other_report.would_fail == report.would_fail,
        other_report.message == report.message,
{
}

} // verus!
