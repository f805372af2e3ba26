//! The data that the execution pipeline works on.
use soroban_sdk::{Address, String, Symbol};
use vstd::prelude::*;

verus! {

/// The keys under which the contract keeps its state in instance storage.
#[derive(Copy, Clone, Debug, PartialEq, Eq, Structural)]
pub enum DataKey {
    /// The admin's address.
    Admin,
    /// The global cap on retries.
    MaxRetries,
    /// How many executions have succeeded.
    TotalExecutions,
    /// How many executions have failed.
    TotalErrors,
}

impl DataKey {
    /// The symbol that stands for the key in storage.
    pub open spec fn text(self) -> Seq<char> {
        match self {
            DataKey::Admin => "Admin"@,
            DataKey::MaxRetries => "MaxRetries"@,
            DataKey::TotalExecutions => "TotalExecutions"@,
            DataKey::TotalErrors => "TotalErrors"@,
        }
    }

    /// The symbol that stands for the key in storage.
    pub fn name(self) -> (name: &'static str)
        ensures
            name@ == self.text(),
    {
        match self {
            DataKey::Admin => "Admin",
            DataKey::MaxRetries => "MaxRetries",
            DataKey::TotalExecutions => "TotalExecutions",
            DataKey::TotalErrors => "TotalErrors",
        }
    }
}

/// The families that errors fall into. The family is the hundreds digit of the
/// error code.
#[derive(Copy, Clone, Debug, PartialEq, Eq, Structural)]
pub enum ErrorCategory {
    /// 1xx: transient connectivity or timeout issues, eligible for retry.
    Network,
    /// 2xx: pre-execution validation failures, which block execution.
    Simulation,
    /// 3xx: rejections by the target contract, not retried.
    Contract,
    /// 4xx: misconfiguration or unauthorized access.
    Config,
}

/// What can go wrong in the execution pipeline.
#[derive(Copy, Clone, Debug, PartialEq, Eq, Structural)]
pub enum ExecutionError {
    /// RPC node did not respond within the expected window.
    NetworkTimeout,
    /// Network connectivity issue; retry may succeed.
    NetworkUnavailable,
    /// Simulation detected the transaction would fail on-chain.
    SimulationFailed,
    /// Simulation indicated insufficient resources (budget/fees).
    SimulationInsufficientResources,
    /// The target contract rejected the call.
    ContractRejected,
    /// The target contract was not found at the given address.
    ContractNotFound,
    /// The called function does not exist on the target contract.
    ContractFunctionNotFound,
    /// The contract has been initialized before.
    AlreadyInitialized,
    /// The contract has not been initialized.
    NotInitialized,
    /// The caller may not do this.
    Unauthorized,
    /// A configuration value is out of range.
    InvalidConfig,
    /// An amount is not positive.
    InvalidAmount,
}

impl ExecutionError {
    /// The error's numeric code.
    pub open spec fn number(self) -> u32 {
        match self {
            ExecutionError::NetworkTimeout => 101,
            ExecutionError::NetworkUnavailable => 102,
            ExecutionError::SimulationFailed => 201,
            ExecutionError::SimulationInsufficientResources => 202,
            ExecutionError::ContractRejected => 301,
            ExecutionError::ContractNotFound => 302,
            ExecutionError::ContractFunctionNotFound => 303,
            ExecutionError::AlreadyInitialized => 401,
            ExecutionError::NotInitialized => 402,
            ExecutionError::Unauthorized => 403,
            ExecutionError::InvalidConfig => 404,
            ExecutionError::InvalidAmount => 405,
        }
    }

    /// The family that the error belongs to.
    pub open spec fn category(self) -> ErrorCategory {
        match self {
            ExecutionError::NetworkTimeout | ExecutionError::NetworkUnavailable =>
                ErrorCategory::Network,
            ExecutionError::SimulationFailed | ExecutionError::SimulationInsufficientResources =>
                ErrorCategory::Simulation,
            ExecutionError::ContractRejected | ExecutionError::ContractNotFound
            | ExecutionError::ContractFunctionNotFound => ErrorCategory::Contract,
            _ => ErrorCategory::Config,
        }
    }

    /// The error's numeric code, as callers and observers see it.
    pub fn code(self) -> (code: u32)
        ensures
            code == self.number(),
    {
        match self {
            ExecutionError::NetworkTimeout => 101,
            ExecutionError::NetworkUnavailable => 102,
            ExecutionError::SimulationFailed => 201,
            ExecutionError::SimulationInsufficientResources => 202,
            ExecutionError::ContractRejected => 301,
            ExecutionError::ContractNotFound => 302,
            ExecutionError::ContractFunctionNotFound => 303,
            ExecutionError::AlreadyInitialized => 401,
            ExecutionError::NotInitialized => 402,
            ExecutionError::Unauthorized => 403,
            ExecutionError::InvalidConfig => 404,
            ExecutionError::InvalidAmount => 405,
        }
    }
}

/// Describes a single transaction to execute.
#[derive(Debug, PartialEq)]
pub struct ExecutionRequest {
    /// Target contract address.
    pub target: Address,
    /// Function name to invoke.
    pub function: Symbol,
    /// Whether to run simulation before execution.
    pub simulate_first: bool,
    /// Maximum number of retries for transient (network) errors.
    /// Capped at the contract-level `max_retries` setting.
    pub max_retries: u32,
}

impl Clone for ExecutionRequest {
    fn clone(&self) -> (copy: Self)
        ensures
            copy == *self,
    {
        ExecutionRequest {
            target: self.target.clone(),
            function: self.function.clone(),
            simulate_first: self.simulate_first,
            max_retries: self.max_retries,
        }
    }
}

/// Result of a single execution.
#[derive(Debug, PartialEq)]
pub struct ExecutionResult {
    /// Target contract address.
    pub target: Address,
    /// Function that was invoked.
    pub function: Symbol,
    /// Whether the execution succeeded.
    pub success: bool,
    /// Number of attempts made.
    pub attempts: u32,
    /// Whether simulation was run before execution.
    pub simulated: bool,
}

impl Clone for ExecutionResult {
    fn clone(&self) -> (copy: Self)
        ensures
            copy == *self,
    {
        ExecutionResult {
            target: self.target.clone(),
            function: self.function.clone(),
            success: self.success,
            attempts: self.attempts,
            simulated: self.simulated,
        }
    }
}

/// Result of a pre-execution simulation.
#[derive(Debug, PartialEq)]
pub struct SimulationResult {
    /// Target contract address.
    pub target: Address,
    /// Function that was simulated.
    pub function: Symbol,
    /// `true` if the simulated call would succeed on-chain.
    pub success: bool,
    /// `true` if the simulated call would be rejected on-chain.
    pub would_fail: bool,
    /// Human-readable feedback for the caller.
    pub message: String,
}

impl Clone for SimulationResult {
    fn clone(&self) -> (copy: Self)
        ensures
            copy == *self,
    {
        SimulationResult {
            target: self.target.clone(),
            function: self.function.clone(),
            success: self.success,
            would_fail: self.would_fail,
            message: self.message.clone(),
        }
    }
}

/// Fee estimate for a transaction.
#[derive(Copy, Clone, Debug, PartialEq, Eq, Structural)]
pub struct FeeEstimate {
    /// Base network fee in stroops.
    pub base_fee: i128,
    /// Estimated resource fee (CPU + memory) in stroops.
    pub resource_fee: i128,
    /// Total estimated fee: base and resource fee, with the surge multiplier applied.
    pub total_fee: i128,
    /// Surge multiplier applied (100 = 1x, 200 = 2x, etc.).
    pub surge_multiplier: u32,
    /// Whether the estimate reflects high-load conditions.
    pub high_load: bool,
}

} // verus!
