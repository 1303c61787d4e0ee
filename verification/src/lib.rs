//! Replays pending transactions against the current tip of a chain.
//!
//! The library holds what is decided and computed on the way: the tip that simulations run
//! against, the execution context built from a block header and a transaction, the cache in
//! front of a remote state backend, and what is recorded and compared of each run. Waiting for
//! the feeds, talking to a node or a database and running the execution engine are left to the
//! program around it.

pub mod backend;
pub mod chain;
pub mod dispatcher;
pub mod env;
pub mod laws;
pub mod primitives;
pub mod reth_runner;
pub mod rpc_runner;
pub mod runner;
pub mod tip;
pub mod utils;
