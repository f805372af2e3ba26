use std::cell::Cell;
use std::rc::Rc;

use router_execution::contract::is_contract_address;
use router_execution::host::CallOutcome;
use router_execution::{ExecutionError, ExecutionRequest, ExecutionResult, RouterExecution};
use soroban_sdk::testutils::{Address as _, ContractFunctionSet, EnvTestConfig, Events as _};
use soroban_sdk::{
    Address, Env, Error, IntoVal, InvokeError, String, Symbol, TryFromVal, Val, Vec,
};

const ACCOUNT: &str = "GAAAAAAAAAAAAAAAAAAAAAAAAAAAAAAAAAAAAAAAAAAAAAAAAAAAAWHF";

/// The contract under test, with the entry points that need a real invocation.
struct Router;

impl ContractFunctionSet for Router {
    fn call(&self, func: &str, env: Env, args: &[Val]) -> Option<Val> {
        let mut env = env;
        match func {
            "simulate" => {
                let caller = Address::try_from_val(&env, &args[0]).unwrap();
                let target = Address::try_from_val(&env, &args[1]).unwrap();
                let function = Symbol::new(&env, "transfer");
                let report = RouterExecution::simulate(&mut env, caller, target, function);
                Some(report.unwrap().success.into())
            }
            "execute" => {
                let caller = Address::try_from_val(&env, &args[0]).unwrap();
                let target = Address::try_from_val(&env, &args[1]).unwrap();
                let request = ExecutionRequest {
                    target,
                    function: Symbol::new(&env, "transfer"),
                    simulate_first: false,
                    max_retries: 0,
                };
                match RouterExecution::execute(&mut env, caller, request) {
                    Ok(done) => Some(done.success.into()),
                    Err(error) => Some(Error::from_contract_error(error.code()).to_val()),
                }
            }
            _ => None,
        }
    }
}

/// A target that fails with each of these codes in turn, and then succeeds. Code
/// zero stands for success.
struct Script {
    codes: std::vec::Vec<u32>,
    called: Rc<Cell<usize>>,
}

impl ContractFunctionSet for Script {
    fn call(&self, func: &str, _env: Env, args: &[Val]) -> Option<Val> {
        if func != "transfer" || !args.is_empty() {
            return None;
        }
        let turn = self.called.get();
        self.called.set(turn + 1);
        match self.codes.get(turn) {
            None | Some(0) => Some(().into()),
            Some(code) => Some(Error::from_contract_error(*code).to_val()),
        }
    }
}

fn new_env() -> Env {
    Env::new_with_config(EnvTestConfig { capture_snapshot_at_drop: false })
}

fn inside<T>(env: &Env, id: &Address, f: impl FnOnce(&mut Env) -> T) -> T {
    let mut handle = env.clone();
    env.as_contract(id, || f(&mut handle))
}

fn deploy(max_retries: u32) -> (Env, Address, Address) {
    let env = new_env();
    env.mock_all_auths();
    let id = env.register(Router, ());
    let admin = Address::generate(&env);
    let result =
        inside(&env, &id, |e| RouterExecution::initialize(e, admin.clone(), max_retries));
    assert_eq!(result, Ok(()));
    (env, id, admin)
}

fn setup() -> (Env, Address, Address) {
    deploy(2)
}

fn scripted(env: &Env, codes: &[u32]) -> (Address, Rc<Cell<usize>>) {
    let called = Rc::new(Cell::new(0));
    let script = Script { codes: codes.to_vec(), called: called.clone() };
    (env.register(script, ()), called)
}

fn request(env: &Env, target: &Address, simulate_first: bool, max_retries: u32) -> ExecutionRequest {
    ExecutionRequest {
        target: target.clone(),
        function: Symbol::new(env, "transfer"),
        simulate_first,
        max_retries,
    }
}

fn event(env: &Env, id: &Address, topic: &str, data: Val) -> (Address, Vec<Val>, Val) {
    let topic: Val = Symbol::new(env, topic).to_val();
    (id.clone(), Vec::from_array(env, [topic]), data)
}

fn run(
    env: &Env,
    id: &Address,
    request: ExecutionRequest,
) -> Result<ExecutionResult, ExecutionError> {
    let caller = Address::generate(env);
    inside(env, id, |e| RouterExecution::execute(e, caller, request))
}

fn stats(env: &Env, id: &Address) -> (u64, u64) {
    inside(env, id, |e| RouterExecution::stats(e))
}

#[test]
fn test_initialize_twice_fails() {
    let (env, id, admin) = setup();
    let result = inside(&env, &id, |e| RouterExecution::initialize(e, admin, 1));
    assert_eq!(result, Err(ExecutionError::AlreadyInitialized));
}

#[test]
fn test_initialize_max_retries_too_high_fails() {
    let env = new_env();
    env.mock_all_auths();
    let id = env.register(Router, ());
    let admin = Address::generate(&env);
    let result = inside(&env, &id, |e| RouterExecution::initialize(e, admin, 6));
    assert_eq!(result, Err(ExecutionError::InvalidConfig));
}

#[test]
fn test_admin_returns_initialized_admin() {
    let (env, id, admin) = setup();
    assert_eq!(inside(&env, &id, |e| RouterExecution::admin(e)), admin);
}

#[test]
fn test_fee_estimate_normal_load() {
    let (env, id, _) = setup();
    let target = Address::generate(&env);
    let function = Symbol::new(&env, "transfer");
    let estimate = inside(&env, &id, |e| {
        RouterExecution::estimate_fee(e, target, function, 1_000_000, 5000)
    })
    .unwrap();
    assert!(!estimate.high_load);
    assert_eq!(estimate.surge_multiplier, 100);
    assert_eq!(estimate.base_fee, 100);
    assert_eq!(estimate.total_fee, estimate.base_fee + estimate.resource_fee);
}

#[test]
fn test_fee_estimate_high_load() {
    let (env, id, _) = setup();
    let target = Address::generate(&env);
    let function = Symbol::new(&env, "transfer");
    let estimate = inside(&env, &id, |e| {
        RouterExecution::estimate_fee(e, target, function, 1_000_000, 8000)
    })
    .unwrap();
    assert!(estimate.high_load);
    assert_eq!(estimate.surge_multiplier, 200);
    // total = (base + resource) * 2
    assert_eq!(estimate.total_fee, (estimate.base_fee + estimate.resource_fee) * 2);
}

#[test]
fn test_fee_estimate_invalid_amount() {
    let (env, id, _) = setup();
    let target = Address::generate(&env);
    let function = Symbol::new(&env, "transfer");
    let result =
        inside(&env, &id, |e| RouterExecution::estimate_fee(e, target, function, 0, 5000));
    assert_eq!(result, Err(ExecutionError::InvalidAmount));
}

#[test]
fn test_stats_initial() {
    let (env, id, _) = setup();
    assert_eq!(stats(&env, &id), (0, 0));
}

#[test]
fn test_simulate_nonexistent_contract_fails() {
    let (env, id, _) = setup();
    let caller = Address::generate(&env);
    let target = Address::generate(&env);
    let function = Symbol::new(&env, "transfer");
    // Calling a random address that has no contract → simulation should fail
    let result =
        inside(&env, &id, |e| RouterExecution::simulate(e, caller, target, function)).unwrap();
    assert!(!result.success);
    assert!(result.would_fail);
}

#[test]
fn test_simulate_returns_message_on_failure() {
    let (env, id, _) = setup();
    let caller = Address::generate(&env);
    let target = Address::generate(&env);
    let function = Symbol::new(&env, "transfer");
    let result =
        inside(&env, &id, |e| RouterExecution::simulate(e, caller, target, function)).unwrap();
    // Message should indicate failure
    assert_eq!(
        result.message,
        String::from_str(&env, "simulation failed: transaction would be rejected")
    );
}

#[test]
fn refused_initialization_stores_nothing() {
    let env = new_env();
    let id = env.register(Router, ());
    let admin = Address::generate(&env);
    let other = Address::generate(&env);
    let refused = inside(&env, &id, |e| RouterExecution::initialize(e, other, 6));
    assert_eq!(refused, Err(ExecutionError::InvalidConfig));
    assert_eq!(inside(&env, &id, |e| RouterExecution::admin_checked(e)), None);
    let accepted = inside(&env, &id, |e| RouterExecution::initialize(e, admin.clone(), 5));
    assert_eq!(accepted, Ok(()));
    let other = Address::generate(&env);
    let refused = inside(&env, &id, |e| RouterExecution::initialize(e, other, 9));
    assert_eq!(refused, Err(ExecutionError::AlreadyInitialized));
    assert_eq!(inside(&env, &id, |e| RouterExecution::admin_checked(e)), Some(admin));
}

#[test]
fn state_is_stored_under_one_symbol_keys() {
    let (env, id, admin) = deploy(4);
    env.as_contract(&id, || {
        let storage = env.storage().instance();
        let stored: Option<Address> = storage.get(&(Symbol::new(&env, "Admin"),));
        assert_eq!(stored, Some(admin));
        let stored: Option<u32> = storage.get(&(Symbol::new(&env, "MaxRetries"),));
        assert_eq!(stored, Some(4));
        let stored: Option<u64> = storage.get(&(Symbol::new(&env, "TotalExecutions"),));
        assert_eq!(stored, Some(0));
        let stored: Option<u64> = storage.get(&(Symbol::new(&env, "TotalErrors"),));
        assert_eq!(stored, Some(0));
    });
}

#[test]
fn nothing_works_before_initialization() {
    let env = new_env();
    env.mock_all_auths();
    let id = env.register(Router, ());
    let (target, called) = scripted(&env, &[]);
    let wanted = request(&env, &target, true, 1);
    assert_eq!(run(&env, &id, wanted), Err(ExecutionError::NotInitialized));
    let caller = Address::generate(&env);
    let function = Symbol::new(&env, "transfer");
    let report = inside(&env, &id, |e| {
        RouterExecution::simulate(e, caller, target.clone(), function.clone())
    });
    assert_eq!(report, Err(ExecutionError::NotInitialized));
    let estimate =
        inside(&env, &id, |e| RouterExecution::estimate_fee(e, target, function, 0, 0));
    assert_eq!(estimate, Err(ExecutionError::NotInitialized));
    assert_eq!(called.get(), 0);
    assert_eq!(stats(&env, &id), (0, 0));
}

#[test]
fn first_attempt_succeeds() {
    let (env, id, _) = setup();
    let (target, called) = scripted(&env, &[]);
    let wanted = request(&env, &target, false, 2);
    let result = run(&env, &id, wanted).unwrap();
    assert_eq!(result.target, target);
    assert_eq!(result.function, Symbol::new(&env, "transfer"));
    assert_eq!((result.success, result.attempts, result.simulated), (true, 1, false));
    assert_eq!(called.get(), 1);
    assert_eq!(stats(&env, &id), (1, 0));
}

#[test]
fn simulation_comes_first() {
    let (env, id, _) = setup();
    let (target, called) = scripted(&env, &[]);
    let wanted = request(&env, &target, true, 2);
    let result = run(&env, &id, wanted).unwrap();
    assert_eq!((result.success, result.attempts, result.simulated), (true, 1, true));
    assert_eq!(called.get(), 2);
    assert_eq!(stats(&env, &id), (1, 0));
}

#[test]
fn failed_simulation_blocks_execution() {
    let (env, id, _) = setup();
    let (target, called) = scripted(&env, &[101]);
    let wanted = request(&env, &target, true, 2);
    assert_eq!(run(&env, &id, wanted), Err(ExecutionError::SimulationFailed));
    assert_eq!(called.get(), 1);
    assert_eq!(stats(&env, &id), (0, 1));
}

#[test]
fn network_errors_are_retried() {
    let (env, id, _) = setup();
    let (target, called) = scripted(&env, &[101, 102]);
    let wanted = request(&env, &target, false, 5);
    let result = run(&env, &id, wanted).unwrap();
    assert_eq!((result.success, result.attempts), (true, 3));
    assert_eq!(called.get(), 3);
    assert_eq!(stats(&env, &id), (1, 0));
}

#[test]
fn network_errors_are_retried_after_simulation() {
    let (env, id, _) = setup();
    let (target, called) = scripted(&env, &[0, 102, 102]);
    let wanted = request(&env, &target, true, 2);
    let result = run(&env, &id, wanted).unwrap();
    assert_eq!((result.attempts, result.simulated), (3, true));
    assert_eq!(called.get(), 4);
}

#[test]
fn retries_are_capped_by_the_contract() {
    let (env, id, _) = setup();
    let (target, called) = scripted(&env, &[101, 101, 101]);
    let wanted = request(&env, &target, false, 5);
    assert_eq!(run(&env, &id, wanted), Err(ExecutionError::ContractRejected));
    assert_eq!(called.get(), 3);
    assert_eq!(stats(&env, &id), (0, 1));
}

#[test]
fn retries_are_capped_by_the_request() {
    let (env, id, _) = deploy(5);
    let (target, called) = scripted(&env, &[102, 102]);
    let wanted = request(&env, &target, false, 1);
    assert_eq!(run(&env, &id, wanted), Err(ExecutionError::ContractRejected));
    assert_eq!(called.get(), 2);
}

#[test]
fn other_errors_are_not_retried() {
    let (env, id, _) = deploy(5);
    let (target, called) = scripted(&env, &[301]);
    let wanted = request(&env, &target, false, 5);
    assert_eq!(run(&env, &id, wanted), Err(ExecutionError::ContractRejected));
    assert_eq!(called.get(), 1);
    let missing = Address::generate(&env);
    let wanted = request(&env, &missing, false, 5);
    assert_eq!(run(&env, &id, wanted), Err(ExecutionError::ContractRejected));
    assert_eq!(stats(&env, &id), (0, 2));
}

#[test]
fn network_error_then_rejection_ends_the_run() {
    let (env, id, _) = deploy(5);
    let (target, called) = scripted(&env, &[101, 9]);
    let wanted = request(&env, &target, false, 5);
    assert_eq!(run(&env, &id, wanted), Err(ExecutionError::ContractRejected));
    assert_eq!(called.get(), 2);
}

#[test]
fn missing_function_is_a_rejection() {
    let (env, id, _) = setup();
    let (target, called) = scripted(&env, &[]);
    let mut wanted = request(&env, &target, false, 2);
    wanted.function = Symbol::new(&env, "no_such_function");
    assert_eq!(run(&env, &id, wanted), Err(ExecutionError::ContractRejected));
    assert_eq!(called.get(), 0);
}

#[test]
fn contract_cannot_be_its_own_target() {
    let (env, id, _) = setup();
    let wanted = request(&env, &id, false, 2);
    assert_eq!(run(&env, &id, wanted), Err(ExecutionError::ContractRejected));
    assert_eq!(stats(&env, &id), (0, 1));
}

#[test]
fn success_is_published() {
    let (env, id, _) = setup();
    let (target, _) = scripted(&env, &[101]);
    let wanted = request(&env, &target, false, 2);
    assert!(run(&env, &id, wanted).is_ok());
    let published = env.events().all();
    let data: Val = (target, Symbol::new(&env, "transfer"), true, 2u32).into_val(&env);
    let expected = Vec::from_array(&env, [event(&env, &id, "execution_result", data)]);
    assert_eq!(published, expected);
}

#[test]
fn rejection_is_published() {
    let (env, id, _) = setup();
    let (target, _) = scripted(&env, &[102, 301]);
    let wanted = request(&env, &target, false, 2);
    assert!(run(&env, &id, wanted).is_err());
    let published = env.events().all();
    let function = Symbol::new(&env, "transfer");
    let error: Val = (target.clone(), function.clone(), 301u32, 2u32).into_val(&env);
    let result: Val = (target, function, false, 2u32).into_val(&env);
    let expected = Vec::from_array(
        &env,
        [
            event(&env, &id, "execution_error", error),
            event(&env, &id, "execution_result", result),
        ],
    );
    assert_eq!(published, expected);
}

#[test]
fn failed_simulation_is_published() {
    let (env, id, _) = setup();
    let (target, _) = scripted(&env, &[1]);
    let wanted = request(&env, &target, true, 2);
    assert!(run(&env, &id, wanted).is_err());
    let published = env.events().all();
    let function = Symbol::new(&env, "transfer");
    let error: Val = (target.clone(), function.clone(), 201u32, 0u32).into_val(&env);
    let result: Val = (target, function, false, 0u32).into_val(&env);
    let expected = Vec::from_array(
        &env,
        [
            event(&env, &id, "execution_error", error),
            event(&env, &id, "execution_result", result),
        ],
    );
    assert_eq!(published, expected);
}

#[test]
fn estimate_is_published() {
    let (env, id, _) = setup();
    let target = Address::generate(&env);
    let function = Symbol::new(&env, "transfer");
    let estimate = inside(&env, &id, |e| {
        RouterExecution::estimate_fee(e, target, function, 1_000_000, 9000)
    });
    assert_eq!(estimate.unwrap().total_fee, 2200);
    let published = env.events().all();
    let data: Val = (2200i128, true).into_val(&env);
    let expected = Vec::from_array(&env, [event(&env, &id, "fee_estimated", data)]);
    assert_eq!(published, expected);
}

#[test]
fn estimate_ignores_target_and_function() {
    let (env, id, _) = setup();
    let one = Address::generate(&env);
    let other = Address::generate(&env);
    let first = inside(&env, &id, |e| {
        let function = Symbol::new(e, "transfer");
        RouterExecution::estimate_fee(e, one, function, 5_000_000, 10)
    });
    let second = inside(&env, &id, |e| {
        let function = Symbol::new(e, "burn");
        RouterExecution::estimate_fee(e, other, function, 5_000_000, 10)
    });
    assert_eq!(first, second);
}

#[test]
fn simulation_is_reported_and_published() {
    let (env, id, _) = setup();
    let (target, called) = scripted(&env, &[]);
    let caller = Address::generate(&env);
    let function = Symbol::new(&env, "transfer");
    let report = inside(&env, &id, |e| {
        RouterExecution::simulate(e, caller, target.clone(), function.clone())
    })
    .unwrap();
    let published = env.events().all();
    assert_eq!(report.target, target);
    assert_eq!(report.function, function);
    assert!(report.success);
    assert!(!report.would_fail);
    assert_eq!(report.message, String::from_str(&env, "simulation succeeded"));
    assert_eq!(called.get(), 1);
    let data: Val = (target, function, true).into_val(&env);
    let expected = Vec::from_array(&env, [event(&env, &id, "simulation_result", data)]);
    assert_eq!(published, expected);
    assert_eq!(stats(&env, &id), (0, 0));
}

#[test]
fn report_follows_the_outcome() {
    let env = new_env();
    let target = Address::generate(&env);
    let function = Symbol::new(&env, "transfer");
    let outcome = CallOutcome::ContractError(101);
    let report =
        RouterExecution::simulation_report(&env, target.clone(), function.clone(), outcome);
    assert_eq!((report.success, report.would_fail), (false, true));
    let report =
        RouterExecution::simulation_report(&env, target, function, CallOutcome::Succeeded);
    assert_eq!((report.success, report.would_fail), (true, false));
    assert_eq!(report.clone(), report);
}

#[test]
fn account_is_no_target() {
    let (env, id, _) = setup();
    let account = Address::from_str(&env, ACCOUNT);
    assert!(!is_contract_address(&account));
    assert!(is_contract_address(&id));
    let wanted = request(&env, &account, true, 2);
    assert!(!inside(&env, &id, |e| RouterExecution::can_execute(e, &wanted)));
    assert_eq!(inside(&env, &id, |e| RouterExecution::execute_checked(e, wanted)), None);
    assert!(!inside(&env, &id, |e| RouterExecution::can_simulate(e, &account)));
    let function = Symbol::new(&env, "transfer");
    let report = inside(&env, &id, |e| RouterExecution::simulate_checked(e, account, function));
    assert_eq!(report, None);
    assert_eq!(stats(&env, &id), (0, 0));
}

#[test]
fn checked_functions_do_the_work() {
    let (env, id, _) = setup();
    let (target, called) = scripted(&env, &[0, 101]);
    let function = Symbol::new(&env, "transfer");
    let report = inside(&env, &id, |e| {
        RouterExecution::simulate_checked(e, target.clone(), function)
    });
    assert!(report.unwrap().unwrap().success);
    let wanted = request(&env, &target, false, 1);
    let result = inside(&env, &id, |e| RouterExecution::execute_checked(e, wanted.clone()));
    assert_eq!(result.unwrap().unwrap().attempts, 2);
    assert_eq!(called.get(), 3);
    let result = inside(&env, &id, |e| RouterExecution::execute_authorized(e, wanted));
    assert_eq!(result.unwrap().attempts, 1);
    assert_eq!(inside(&env, &id, |e| RouterExecution::stats_checked(e)), Some((2, 0)));
}

#[test]
fn exhausted_counter_is_noticed() {
    let (env, id, _) = setup();
    let (target, called) = scripted(&env, &[]);
    env.as_contract(&id, || {
        env.storage().instance().set(&(Symbol::new(&env, "TotalErrors"),), &u64::MAX);
    });
    let wanted = request(&env, &target, false, 1);
    assert_eq!(inside(&env, &id, |e| RouterExecution::execute_checked(e, wanted)), None);
    assert_eq!(called.get(), 0);
    assert_eq!(stats(&env, &id), (0, u64::MAX));
}

#[test]
fn foreign_values_are_noticed() {
    let (env, id, _) = setup();
    let (target, _) = scripted(&env, &[]);
    let wanted = request(&env, &target, false, 1);
    env.as_contract(&id, || {
        env.storage().instance().set(&(Symbol::new(&env, "TotalErrors"),), &true);
        env.storage().instance().set(&(Symbol::new(&env, "Admin"),), &7u32);
    });
    assert!(!inside(&env, &id, |e| RouterExecution::can_execute(e, &wanted)));
    assert_eq!(inside(&env, &id, |e| RouterExecution::stats_checked(e)), None);
    assert_eq!(inside(&env, &id, |e| RouterExecution::admin_checked(e)), None);
    env.as_contract(&id, || {
        env.storage().instance().set(&(Symbol::new(&env, "TotalErrors"),), &0u64);
        env.storage().instance().set(&(Symbol::new(&env, "MaxRetries"),), &2u64);
    });
    assert!(!inside(&env, &id, |e| RouterExecution::can_execute(e, &wanted)));
}

#[test]
fn caller_must_have_authorized() {
    let env = new_env();
    let id = env.register(Router, ());
    let admin = Address::generate(&env);
    let result = inside(&env, &id, |e| RouterExecution::initialize(e, admin, 2));
    assert_eq!(result, Ok(()));
    let (target, called) = scripted(&env, &[]);
    let caller = Address::generate(&env);
    let args: Vec<Val> = Vec::from_array(&env, [caller.to_val(), target.to_val()]);
    for function in ["execute", "simulate"] {
        let refused = env.try_invoke_contract::<bool, InvokeError>(
            &id,
            &Symbol::new(&env, function),
            args.clone(),
        );
        assert!(refused.is_err());
    }
    assert_eq!(called.get(), 0);
    env.mock_all_auths();
    for function in ["execute", "simulate"] {
        let accepted = env.try_invoke_contract::<bool, InvokeError>(
            &id,
            &Symbol::new(&env, function),
            args.clone(),
        );
        assert_eq!(env.auths()[0].0, caller);
        assert_eq!(accepted, Ok(Ok(true)));
    }
    assert_eq!(called.get(), 2);
}
