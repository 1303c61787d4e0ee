//! What one simulation yields, how it can fail, and the seam behind which every state backend
//! stands.

use crate::backend::BackendError;
use crate::chain::Transaction;
use crate::env::{Env, EnvView};
use crate::primitives::{B160, RU256};
use vstd::prelude::*;

verus! {

/// The state backends a transaction can be replayed against.
#[derive(Clone, Copy, Debug, PartialEq, Eq)]
pub enum Backend {
    /// Every account or storage request is a fresh round trip to the remote node.
    DirectRemote,
    /// Remote lookups behind a cache that lives for one simulation.
    CachingRemote,
    /// The chain state held in a local database.
    EmbeddedDatabase,
}

/// How an execution ended.
#[derive(Clone, Copy, Debug, PartialEq, Eq)]
pub enum ExecutionStatus {
    Success,
    /// The transaction chose to revert; unspent gas is kept.
    Reverted,
    /// The transaction was stopped by the engine and spent all its gas.
    Halted,
}

/// One account as the execution left it.
#[derive(Clone, Debug, PartialEq, Eq)]
pub struct AccountChange {
    pub address: B160,
    pub balance: RU256,
    pub nonce: u64,
    pub code: Option<Vec<u8>>,
    pub storage: Vec<(RU256, RU256)>,
}

/// The result of a transaction that ran to its end, whether it succeeded or not. The state
/// changes are a report only: nothing is written back to any backend.
#[derive(Clone, Debug, PartialEq, Eq)]
pub struct ExecutionOutcome {
    pub status: ExecutionStatus,
    pub gas_used: u64,
    pub output: Vec<u8>,
    pub state: Vec<AccountChange>,
}

impl ExecutionOutcome {
    /// Whether the execution ended in success.
    pub fn is_success(&self) -> (success: bool)
        ensures
            success == (self.status is Success),
    {
        match self.status {
            ExecutionStatus::Success => true,
            _ => false,
        }
    }

    /// The gas the execution used.
    pub fn gas_used(&self) -> (gas: u64)
        ensures
            gas == self.gas_used,
    {
        self.gas_used
    }

    /// The number of accounts the execution touched.
    pub fn state_changes(&self) -> (count: usize)
        ensures
            count == self.state@.len(),
    {
        self.state.len()
    }
}

/// The step of a simulation at which something went wrong.
#[derive(Clone, Copy, Debug, PartialEq, Eq)]
pub enum Stage {
    LatestHeader,
    LatestBlock,
    LatestState,
    Execution,
}

/// Why the engine refused a transaction before running it.
#[derive(Clone, Copy, Debug, PartialEq, Eq)]
pub enum Refusal {
    /// The priority fee is above the fee cap.
    PriorityFeeAboveFeeCap,
    /// The price is below the block's base fee.
    PriceBelowBaseFee,
    /// The gas limit is above the block's.
    GasLimitAboveBlock,
    /// The gas limit does not cover the cost of the transaction as such.
    GasLimitBelowIntrinsicCost,
    /// The sender is a contract.
    SenderHasCode,
    /// The sender cannot pay for value and gas.
    InsufficientFunds { gas_limit: RU256, balance: RU256 },
    /// Value and gas together are beyond any balance.
    PaymentOverflow,
    /// The sender's nonce cannot go up any more.
    NonceOverflow,
    /// The transaction's nonce is ahead of the sender's.
    NonceTooHigh { tx: u64, state: u64 },
    /// The transaction's nonce is behind the sender's.
    NonceTooLow { tx: u64, state: u64 },
    /// The code to create a contract from is too long.
    InitCodeTooLarge,
    /// The transaction is made for another chain.
    WrongChainId,
}

/// Why the engine ended a run without an outcome.
#[derive(Clone, Copy, Debug, PartialEq, Eq)]
pub enum EngineFault {
    /// The engine refused the transaction before running it, for the reason it gave.
    InvalidTransaction(Refusal),
    /// The block context lacks the randomness that the engine needs.
    PrevrandaoNotSet,
    /// A state lookup failed while the transaction ran, for the reason the backend gave.
    Database(BackendError),
}

/// Why a simulation has no outcome. A revert or a halt is an outcome, not one of these.
#[derive(Clone, Copy, Debug, PartialEq, Eq)]
pub enum SimulationError {
    /// The state backend could not be reached, or failed while it answered.
    BackendUnavailable(Stage),
    /// The backend answered, and the block or state asked for is not there.
    NotFound(Stage),
    /// The engine refused the environment or the transaction.
    Engine(EngineFault),
}

/// What the engine hands back after one run.
#[derive(Clone, Debug, PartialEq, Eq)]
pub enum EngineReport {
    Completed(ExecutionOutcome),
    Failed(EngineFault),
}

/// The error for a run that the engine ended with `fault`. A failed state lookup is the
/// backend's failure during execution, and keeps apart a backend that was unavailable from one
/// that does not hold what was asked for; anything else is the engine's refusal.
pub open spec fn fault_error(fault: EngineFault) -> SimulationError {
    match fault {
        EngineFault::Database(BackendError::Unavailable) => SimulationError::BackendUnavailable(
            Stage::Execution,
        ),
        EngineFault::Database(BackendError::NotFound) => SimulationError::NotFound(
            Stage::Execution,
        ),
        _ => SimulationError::Engine(fault),
    }
}

/// The result of the simulation for what the engine handed back. A completed run is a result
/// whatever its status, and is kept as it is; every fault is an error that keeps what the
/// engine or the backend gave as the reason.
pub open spec fn result_of(report: EngineReport) -> Result<ExecutionOutcome, SimulationError> {
    match report {
        EngineReport::Completed(outcome) => Ok(outcome),
        EngineReport::Failed(fault) => Err(fault_error(fault)),
    }
}

/// Turns the engine's report into the result of the simulation.
pub fn simulation_result(report: EngineReport) -> (result: Result<
    ExecutionOutcome,
    SimulationError,
>)
    ensures
        result == result_of(report),
{
    match report {
        EngineReport::Completed(outcome) => Ok(outcome),
        EngineReport::Failed(fault) => match fault {
            EngineFault::Database(BackendError::Unavailable) => Err(
                SimulationError::BackendUnavailable(Stage::Execution),
            ),
            EngineFault::Database(BackendError::NotFound) => Err(
                SimulationError::NotFound(Stage::Execution),
            ),
            _ => Err(SimulationError::Engine(fault)),
        },
    }
}

/// Whether `result` is the result of one run of `engine` on an environment that says `env`:
/// the engine was handed such an environment, and the result is what it handed back, put as
/// the result of a simulation.
pub open spec fn ran<F: FnOnce(Env) -> EngineReport>(
    engine: F,
    env: EnvView,
    result: Result<ExecutionOutcome, SimulationError>,
) -> bool {
    exists|handed: Env, report: EngineReport|
        handed@ == env && #[trigger] call_ensures(engine, (handed,), report) && result
            == result_of(report)
}

/// Runs the engine on the environment, once, and returns what it handed back as the result of
/// the simulation. Nothing is tried again and nothing is looked at before the run: the engine
/// alone decides.
pub fn run_once<F: FnOnce(Env) -> EngineReport>(env: Env, engine: F) -> (result: Result<
    ExecutionOutcome,
    SimulationError,
>)
    requires
        call_requires(engine, (env,)),
    ensures
        ran(engine, env@, result),
{
    let report = engine(env);
    simulation_result(report)
}

/// What a lookup in the local chain database gave.
#[derive(Clone, Debug, PartialEq, Eq)]
pub enum Fetched<T> {
    Found(T),
    /// The database answered and does not hold the item.
    Absent,
    /// The database could not answer.
    Failed,
}

/// The item a simulation step needs from the local database, or the error that ends the
/// simulation: `NotFound` where the database does not hold it, `BackendUnavailable` where the
/// database failed.
pub fn require_local<T>(stage: Stage, fetched: Fetched<T>) -> (result: Result<T, SimulationError>)
    ensures
        match fetched {
            Fetched::Found(item) => result == Ok::<T, SimulationError>(item),
            Fetched::Absent => result == Err::<T, SimulationError>(
                SimulationError::NotFound(stage),
            ),
            Fetched::Failed => result == Err::<T, SimulationError>(
                SimulationError::BackendUnavailable(stage),
            ),
        },
{
    match fetched {
        Fetched::Found(item) => Ok(item),
        Fetched::Absent => Err(SimulationError::NotFound(stage)),
        Fetched::Failed => Err(SimulationError::BackendUnavailable(stage)),
    }
}

impl SimulationError {
    /// The stage at which the simulation failed; a refusal by the engine counts as execution.
    pub open spec fn stage(&self) -> Stage {
        match *self {
            SimulationError::BackendUnavailable(stage) => stage,
            SimulationError::NotFound(stage) => stage,
            SimulationError::Engine(_) => Stage::Execution,
        }
    }

    /// The line that reports this error for a run against `backend`.
    pub open spec fn message_text(&self, backend: Backend) -> Seq<char> {
        match self.stage() {
            Stage::LatestHeader => "Error fetching latest sealed header"@,
            Stage::LatestBlock => "Error fetching latest block"@,
            Stage::LatestState => "Error fetching latest state"@,
            Stage::Execution => match backend {
                Backend::EmbeddedDatabase => "Error executing transaction"@,
                _ => "Error running transaction"@,
            },
        }
    }

    /// Writes the line that reports this error for a run against `backend`.
    pub fn message(&self, backend: Backend) -> (text: String)
        ensures
            text@ == self.message_text(backend),
    {
        let stage = match self {
            SimulationError::BackendUnavailable(stage) => *stage,
            SimulationError::NotFound(stage) => *stage,
            SimulationError::Engine(_) => Stage::Execution,
        };
        match stage {
            Stage::LatestHeader => "Error fetching latest sealed header".to_owned(),
            Stage::LatestBlock => "Error fetching latest block".to_owned(),
            Stage::LatestState => "Error fetching latest state".to_owned(),
            Stage::Execution => match backend {
                Backend::EmbeddedDatabase => "Error executing transaction".to_owned(),
                _ => "Error running transaction".to_owned(),
            },
        }
    }
}

/// Anything that can replay one transaction against the chain state it stands for. The replay
/// engine knows its backends through this alone.
pub trait TransactionRunner {
    /// Runs the transaction once and returns the outcome or the reason there is none.
    fn run(&self, tx: &Transaction) -> Result<ExecutionOutcome, SimulationError>;
}

} // verus!
