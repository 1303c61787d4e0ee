//! What holds of the execution context whatever the transaction, the block and the backend.

use crate::chain::{BlockView, TransactionView};
use crate::dispatcher::effective_gas_price;
use crate::env::{Env, EnvView, TransactToView, TxEnvView};
use crate::reth_runner::filled_tx_env;
use crate::runner::{ran, EngineReport, ExecutionOutcome, SimulationError};
use crate::utils::configured_tx_env;
use vstd::prelude::*;

verus! {

/// The transaction as it is handed to the remote backend: the gas price replaced by the price
/// to simulate with.
pub open spec fn with_simulated_price(tx: TransactionView, block: BlockView) -> TransactionView {
    TransactionView { gas_price: effective_gas_price(tx, block), ..tx }
}

/// A transaction that declares a fee cap is simulated at exactly that cap, never at a lower
/// price: whatever price the transaction carries, whatever the block's base fee, and against
/// the remote backends as against the embedded one.
pub proof fn lemma_fee_cap_is_simulated_price(
    prior: TxEnvView,
    tx: TransactionView,
    block: BlockView,
)
    requires
        tx.max_fee_per_gas is Some,
    ensures
        effective_gas_price(tx, block) == tx.max_fee_per_gas,
        configured_tx_env(prior, with_simulated_price(tx, block)).gas_price
            == tx.max_fee_per_gas->0,
        filled_tx_env(prior, tx).gas_price == tx.max_fee_per_gas->0,
{
}

/// Every backend gets one and the same transaction context. For a transaction that names a
/// fee cap or a price, the context of a run against the embedded database is the context of a
/// run against a remote backend: the same price, nonce, access list, execution mode and all
/// the rest.
pub proof fn lemma_backends_get_one_context(prior: TxEnvView, tx: TransactionView, block: BlockView)
    requires
        tx.max_fee_per_gas is Some || tx.gas_price is Some,
    ensures
        filled_tx_env(prior, tx) == configured_tx_env(prior, with_simulated_price(tx, block)),
{
}

/// Once the price to simulate with is set in the transaction, the two contexts are the same
/// for every transaction and every block, also where neither names a price.
pub proof fn lemma_one_context_after_substitution(
    prior: TxEnvView,
    tx: TransactionView,
    block: BlockView,
)
    ensures
        filled_tx_env(prior, with_simulated_price(tx, block)) == configured_tx_env(
            prior,
            with_simulated_price(tx, block),
        ),
{
}

/// Whether two engines, each with the backend it runs against, hand back the same for
/// environments that say the same.
pub open spec fn answer_alike<F: FnOnce(Env) -> EngineReport, G: FnOnce(Env) -> EngineReport>(
    first: F,
    second: G,
) -> bool {
    forall|a: Env, b: Env, x: EngineReport, y: EngineReport|
        a@ == b@ && #[trigger] call_ensures(first, (a,), x) && #[trigger] call_ensures(
            second,
            (b,),
            y,
        ) ==> x == y
}

/// Running a transaction again gives the same result: two runs on environments that say the
/// same, by engines and backends that answer alike, end in the same outcome or the same error.
/// Only the time that a caller takes of a run may differ.
pub proof fn lemma_repeated_run_gives_same_result<
    F: FnOnce(Env) -> EngineReport,
    G: FnOnce(Env) -> EngineReport,
>(
    first: F,
    second: G,
    env: EnvView,
    first_result: Result<ExecutionOutcome, SimulationError>,
    second_result: Result<ExecutionOutcome, SimulationError>,
)
    requires
        answer_alike(first, second),
        ran(first, env, first_result),
        ran(second, env, second_result),
    ensures
        first_result == second_result,
{
}

/// The nonce of a transaction reaches the engine as it is, however far it is from the
/// sender's nonce on the chain: no backend's context looks at anything but the transaction.
pub proof fn lemma_nonce_reaches_engine_unchanged(prior: TxEnvView, tx: TransactionView)
    requires
        tx.nonce <= u64::MAX,
    ensures
        configured_tx_env(prior, tx).nonce == Some(tx.nonce as u64),
        filled_tx_env(prior, tx).nonce == Some(tx.nonce as u64),
        configured_tx_env(prior, tx).nonce->0 == tx.nonce,
{
}

/// A transaction without a recipient is built as a contract creation, and a transaction with a
/// recipient as a call of that recipient: one of the two, never both, whatever the call data.
pub proof fn lemma_creation_exactly_without_recipient(prior: TxEnvView, tx: TransactionView)
    ensures
        tx.to is None <==> configured_tx_env(prior, tx).transact_to == TransactToView::Create,
        tx.to is Some <==> configured_tx_env(prior, tx).transact_to == TransactToView::Call(
            tx.to->0,
        ),
        !(configured_tx_env(prior, tx).transact_to is Create2),
        filled_tx_env(prior, tx).transact_to == configured_tx_env(prior, tx).transact_to,
{
}

} // verus!
