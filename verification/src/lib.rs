//! # router-execution
//!
//! Transaction execution pipeline with structured error handling, pre-execution
//! simulation, and fee estimation for the stellar-router suite.
//!
//! ## Features
//! - Structured error hierarchy: network, simulation, contract and config errors
//! - Pre-execution simulation that blocks execution on failure
//! - Retry logic for transient (network) failures
//! - Centralized error event logging
//! - Fee estimation with edge-case handling
//!
//! ## Modules
//! - [`types`]: requests, results, errors and storage keys
//! - [`fees`]: the fee schedule
//! - [`pipeline`]: when a call is retried, and how an execution ends
//! - [`host`]: the contract host
//! - [`store`]: the contract's state in instance storage
//! - [`contract`]: the contract's functions
//! - [`laws`]: what holds of the contract as a whole, and of each function as seen
//!   from outside
pub mod contract;
pub mod fees;
pub mod host;
pub mod laws;
pub mod pipeline;
pub mod store;
pub mod types;

pub use contract::RouterExecution;
pub use types::{
    DataKey, ErrorCategory, ExecutionError, ExecutionRequest, ExecutionResult, FeeEstimate,
    SimulationResult,
};
