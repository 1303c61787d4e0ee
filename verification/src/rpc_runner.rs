//! The remote backend: the block context built from the tip, the environment of one run, and
//! the limits of the transport that carries its state lookups.

use crate::chain::{Block, BlockView, Transaction};
use crate::env::{initial_tx_env, BlockEnv, BlockEnvView, Env, EnvView};
use crate::primitives::{H160, RU256, U256};
use crate::runner::{ran, run_once, EngineReport, ExecutionOutcome, SimulationError};
use crate::utils::{configure_tx_env, configured_tx_env, h160_to_b160, h256_to_b256, u256_to_ru256};
use vstd::prelude::*;

verus! {

/// Limits of the transport to the remote node: how long one request may take, and how often
/// and how fast a refused or timed-out request is tried again.
#[derive(Clone, Copy, Debug, PartialEq, Eq)]
pub struct RetryPolicy {
    pub connect_timeout_secs: u64,
    pub request_timeout_secs: u64,
    pub initial_backoff_millis: u64,
    pub timeout_retries: u32,
    pub rate_limit_retries: u32,
    pub compute_units_per_second: u64,
}

impl RetryPolicy {
    /// The limits that the remote backend works with: five seconds to connect and five for a
    /// request, a first pause of 100 ms, five retries after a timeout and a hundred after a
    /// rate-limit refusal, at 330 compute units per second.
    pub fn standard() -> (policy: Self)
        ensures
            policy == (RetryPolicy {
                connect_timeout_secs: 5,
                request_timeout_secs: 5,
                initial_backoff_millis: 100,
                timeout_retries: 5,
                rate_limit_retries: 100,
                compute_units_per_second: 330,
            }),
    {
        RetryPolicy {
            connect_timeout_secs: 5,
            request_timeout_secs: 5,
            initial_backoff_millis: 100,
            timeout_retries: 5,
            rate_limit_retries: 100,
            compute_units_per_second: 330,
        }
    }
}

/// The block context for a header: number, time, difficulty and gas limit as they are; the
/// randomness as it is, absent where the header has none; the all-zero address and a zero base
/// fee where the header leaves beneficiary or base fee out.
pub open spec fn filled_block_env(block: BlockView) -> BlockEnvView {
    BlockEnvView {
        number: block.number as nat,
        coinbase: match block.author {
            Some(author) => author,
            None => Seq::new(20, |i: int| 0u8),
        },
        timestamp: block.timestamp,
        difficulty: block.difficulty,
        prevrandao: block.mix_hash,
        basefee: match block.base_fee_per_gas {
            Some(fee) => fee,
            None => 0,
        },
        gas_limit: block.gas_limit,
    }
}

/// Fills the block context from a header.
pub fn fill_block_env(block_env: &mut BlockEnv, block: &Block)
    ensures
        final(block_env)@ == filled_block_env(block@),
{
    block_env.number = RU256::from_u64(block.number);
    block_env.timestamp = u256_to_ru256(block.timestamp);
    block_env.coinbase = h160_to_b160(
        match block.author {
            Some(author) => author,
            None => H160::zero(),
        },
    );
    block_env.difficulty = u256_to_ru256(block.difficulty);
    block_env.prevrandao = match block.mix_hash {
        Some(hash) => Some(h256_to_b256(hash)),
        None => None,
    };
    block_env.basefee = u256_to_ru256(
        match block.base_fee_per_gas {
            Some(fee) => fee,
            None => U256::zero(),
        },
    );
    block_env.gas_limit = u256_to_ru256(block.gas_limit);
}

/// Replays transactions against the state of one block as a remote node serves it.
#[derive(Clone, Debug, PartialEq, Eq)]
pub struct RpcRunner<'a> {
    pub rpc_url: String,
    pub block: &'a Block,
}

impl<'a> RpcRunner<'a> {
    /// The number of the block whose state every lookup of a run is made against.
    pub fn state_block(&self) -> (number: u64)
        ensures
            number == self.block.number,
    {
        self.block.number
    }

    /// What the environment in which `tx` runs says: the block context of this runner's block
    /// and the transaction context of `tx`, with no chain id set.
    pub open spec fn env_view(&self, tx: &Transaction) -> EnvView {
        EnvView {
            block: filled_block_env(self.block@),
            tx: configured_tx_env(initial_tx_env(), tx@),
        }
    }

    /// Runs `tx` against this runner's block: builds the environment, hands it to the engine
    /// once, and returns what the engine handed back. The transaction goes to the engine as it
    /// is, whatever its nonce.
    pub fn run_with<F: FnOnce(Env) -> EngineReport>(&self, tx: &Transaction, engine: F) -> (result:
        Result<ExecutionOutcome, SimulationError>)
        requires
            tx.fits_engine(),
            forall|env: Env| call_requires(engine, (env,)),
        ensures
            ran(engine, self.env_view(tx), result),
    {
        run_once(self.env(tx), engine)
    }

    /// The environment in which `tx` runs.
    pub fn env(&self, tx: &Transaction) -> (env: Env)
        requires
            tx.fits_engine(),
        ensures
            env@ == self.env_view(tx),
    {
        let mut env = Env::new();
        fill_block_env(&mut env.block, self.block);
        configure_tx_env(&mut env, tx);
        env
    }
}

} // verus!
