# router-execution

A Soroban contract that executes calls to other contracts: it simulates them
first where that is asked for, retries them after network errors, counts and
publishes how they end, and estimates their fees. The library is verified with
Verus.

- `src/types.rs`: requests, results, errors and storage keys
- `src/fees.rs`: the fee schedule
- `src/pipeline.rs`: when a call is retried, and how an execution ends
- `src/host.rs`: the contract host; all that is taken on trust of `soroban_sdk`
- `src/store.rs`: the contract's state in instance storage
- `src/contract.rs`: the contract's functions
- `src/laws.rs`: what holds of the contract as a whole
- `app/`: the entry points that the host calls
- `tests/`: the contract in a test environment of the SDK

The contract counts and publishes a failure before it returns the error. The host
undoes all that an invocation has stored and published when the invoked function
returns an error, so on a ledger these traces stay only where an entry point
turns the error into an ordinary result.
