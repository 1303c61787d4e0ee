//! The embedded-database backend: where its database lies, and the transaction context of a
//! run against it.

use crate::chain::{Transaction, TransactionView};
use crate::env::{TransactTo, TxEnv, TxEnvView};
use crate::primitives::RU256;
use crate::utils::{
    as_u64, expand_access_list, expanded_access_list, h160_to_b160, transact_mode, u256_to_ru256,
};
use vstd::prelude::*;

verus! {

/// The transaction context of a run against the embedded database. It is the context that
/// every backend gets: sender, gas limit, nonce, value, call data, execution mode and the
/// expanded access list of the transaction. The price is the most the sender declared to be
/// willing to pay per gas: the fee cap where the transaction has one, otherwise the price it
/// names, and zero where it names neither. Of what was there before, only the chain id stays.
pub open spec fn filled_tx_env(prior: TxEnvView, tx: TransactionView) -> TxEnvView {
    TxEnvView {
        caller: tx.from,
        gas_limit: tx.gas as u64,
        gas_price: match tx.max_fee_per_gas {
            Some(cap) => cap,
            None => match tx.gas_price {
                Some(price) => price,
                None => 0,
            },
        },
        gas_priority_fee: tx.max_priority_fee_per_gas,
        transact_to: transact_mode(tx.to),
        value: tx.value,
        data: tx.input,
        chain_id: prior.chain_id,
        nonce: Some(tx.nonce as u64),
        access_list: expanded_access_list(tx.access_list),
    }
}

/// Fills the transaction context from a pending transaction for a run against the embedded
/// database.
pub fn fill_tx_env(tx_env: &mut TxEnv, tx: &Transaction)
    requires
        tx.fits_engine(),
    ensures
        final(tx_env)@ == filled_tx_env(old(tx_env)@, tx@),
{
    tx_env.caller = h160_to_b160(tx.from);
    tx_env.gas_limit = as_u64(&tx.gas);
    tx_env.gas_price = match tx.max_fee_per_gas {
        Some(max_fee_per_gas) => u256_to_ru256(max_fee_per_gas),
        None => match tx.gas_price {
            Some(gas_price) => u256_to_ru256(gas_price),
            None => RU256::zero(),
        },
    };
    tx_env.gas_priority_fee = match tx.max_priority_fee_per_gas {
        Some(max_priority_fee_per_gas) => Some(u256_to_ru256(max_priority_fee_per_gas)),
        None => None,
    };
    tx_env.transact_to = match tx.to {
        Some(to) => TransactTo::Call(h160_to_b160(to)),
        None => TransactTo::create(),
    };
    tx_env.value = u256_to_ru256(tx.value);
    tx_env.data = tx.input.clone();
    tx_env.nonce = Some(as_u64(&tx.nonce));
    tx_env.access_list = expand_access_list(&tx.access_list);
}

/// Settings from which the embedded-database backend is opened.
#[derive(Clone, Debug, PartialEq, Eq)]
pub struct RethRunnerBuilder {
    pub db_path: String,
}

impl RethRunnerBuilder {
    /// A builder that points at the current directory.
    pub fn new() -> (builder: Self)
        ensures
            builder.db_path@ == "./"@,
    {
        Self { db_path: "./".to_owned() }
    }

    /// Replaces the database path and hands the builder back for chaining.
    pub fn with_db_path(&mut self, db_path: String) -> (builder: &mut Self)
        ensures
            builder.db_path == db_path,
            *final(self) == *final(builder),
    {
        self.db_path = db_path;
        self
    }
}

} // verus!
