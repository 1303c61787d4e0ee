//! Conversions from the client's values to the engine's, and the transaction context built
//! from a pending transaction.

use crate::chain::{AccessListItem, AccessListItemView, Transaction, TransactionView};
use crate::env::{access_entry_view, Env, EnvView, TransactTo, TransactToView, TxEnvView};
use crate::primitives::{be_value, le_value, B160, B256, H160, H256, RU256, U256};
use vstd::prelude::*;

verus! {

/// Calls `to_little_endian` of `ethers_core::types::U256`, which writes the four limbs lowest
/// first, each as its eight bytes lowest first. Trusted: the 32 bytes, read least significant
/// byte first, are the number.
#[verifier::external_body]
fn to_little_endian(u: &U256) -> (bytes: [u8; 32])
    ensures
        le_value(bytes@) == u@,
{
    let mut buffer = [0u8; 32];
    ethers_core::types::U256(u.0).to_little_endian(buffer.as_mut_slice());
    buffer
}

/// Calls `from_le_bytes` of `revm::primitives::U256`, which reads each limb from eight bytes,
/// lowest limb and lowest byte first. Trusted: the result is the number that the 32 bytes hold
/// when read least significant byte first.
#[verifier::external_body]
fn from_le_bytes(bytes: [u8; 32]) -> (r: RU256)
    ensures
        r@ == le_value(bytes@),
{
    RU256(revm::primitives::U256::from_le_bytes(bytes).into_limbs())
}

/// Calls `from_big_endian` of `ethers_core::types::U256`, which reads each limb from eight
/// bytes, highest limb and highest byte first. Trusted: the result is the number that the 32
/// bytes hold when read most significant byte first.
#[verifier::external_body]
fn from_big_endian(bytes: &[u8; 32]) -> (u: U256)
    ensures
        u@ == be_value(bytes@),
{
    U256(ethers_core::types::U256::from_big_endian(bytes).0)
}

/// Calls `as_u64` of `ethers_core::types::U256`, which panics unless the upper three limbs are
/// zero and otherwise returns the lowest limb. Trusted: on a number that fits, the result is
/// that number.
#[verifier::external_body]
pub(crate) fn as_u64(u: &U256) -> (word: u64)
    requires
        u@ <= u64::MAX,
    ensures
        word == u@,
{
    ethers_core::types::U256(u.0).as_u64()
}

/// The engine's form of a client number: the same number.
#[inline]
pub fn u256_to_ru256(u: U256) -> (r: RU256)
    ensures
        r@ == u@,
{
    let buffer = to_little_endian(&u);
    from_le_bytes(buffer)
}

/// A 32-byte storage key read as a number, most significant byte first.
#[inline]
pub fn h256_to_u256_be(storage: H256) -> (u: U256)
    ensures
        u@ == be_value(storage@),
{
    from_big_endian(&storage.0)
}

/// The engine's form of a client address: the same twenty bytes.
#[inline]
pub fn h160_to_b160(h: H160) -> (b: B160)
    ensures
        b@ == h@,
{
    B160(h.0)
}

/// The engine's form of a client hash: the same 32 bytes.
#[inline]
pub fn h256_to_b256(h: H256) -> (b: B256)
    ensures
        b@ == h@,
{
    B256(h.0)
}

/// The storage keys of one access-list entry as the engine's numbers, in the same order.
pub open spec fn expanded_keys(keys: Seq<Seq<u8>>) -> Seq<nat> {
    keys.map_values(|key: Seq<u8>| be_value(key))
}

/// One access-list entry as the engine takes it.
pub open spec fn expanded_entry(item: AccessListItemView) -> (Seq<u8>, Seq<nat>) {
    (item.address, expanded_keys(item.storage_keys))
}

/// The access list as the engine takes it: every entry expanded, in the transaction's order;
/// empty when the transaction declares none.
pub open spec fn expanded_access_list(list: Option<Seq<AccessListItemView>>) -> Seq<
    (Seq<u8>, Seq<nat>),
> {
    match list {
        Some(items) => items.map_values(|item: AccessListItemView| expanded_entry(item)),
        None => Seq::empty(),
    }
}

/// The execution mode of a transaction: a call of the recipient where there is one, a contract
/// creation where there is none.
pub open spec fn transact_mode(to: Option<Seq<u8>>) -> TransactToView {
    match to {
        Some(address) => TransactToView::Call(address),
        None => TransactToView::Create,
    }
}

/// The transaction context for `tx`; of what was there before only the chain id stays.
pub open spec fn configured_tx_env(prior: TxEnvView, tx: TransactionView) -> TxEnvView {
    TxEnvView {
        caller: tx.from,
        gas_limit: tx.gas as u64,
        gas_price: match tx.gas_price {
            Some(price) => price,
            None => 0,
        },
        gas_priority_fee: tx.max_priority_fee_per_gas,
        transact_to: transact_mode(tx.to),
        value: tx.value,
        data: tx.input,
        chain_id: prior.chain_id,
        nonce: Some(tx.nonce as u64),
        access_list: expanded_access_list(tx.access_list),
    }
}

/// Expands the storage keys of one access-list entry.
fn expand_keys(keys: &Vec<H256>) -> (out: Vec<RU256>)
    ensures
        out@.map_values(|key: RU256| key@) == expanded_keys(keys@.map_values(|key: H256| key@)),
{
    let mut out: Vec<RU256> = Vec::new();
    let mut i: usize = 0;
    while i < keys.len()
        invariant
            i <= keys.len(),
            out.len() == i,
            forall|j: int| 0 <= j < i ==> (#[trigger] out[j])@ == be_value(keys[j]@),
        decreases keys.len() - i,
    {
        out.push(u256_to_ru256(h256_to_u256_be(keys[i])));
        i = i + 1;
    }
    assert(out@.map_values(|key: RU256| key@) =~= expanded_keys(
        keys@.map_values(|key: H256| key@),
    ));
    out
}

/// Expands a transaction's access list.
pub(crate) fn expand_access_list(list: &Option<Vec<AccessListItem>>) -> (out: Vec<(B160, Vec<RU256>)>)
    ensures
        out@.map_values(|entry: (B160, Vec<RU256>)| access_entry_view(entry))
            == expanded_access_list(
            match *list {
                Some(items) => Some(items@.map_values(|item: AccessListItem| item@)),
                None => None,
            },
        ),
{
    let mut out: Vec<(B160, Vec<RU256>)> = Vec::new();
    match list {
        Some(items) => {
            let mut i: usize = 0;
            while i < items.len()
                invariant
                    i <= items.len(),
                    out.len() == i,
                    forall|j: int|
                        0 <= j < i ==> access_entry_view(#[trigger] out[j]) == expanded_entry(
                            items[j]@,
                        ),
                decreases items.len() - i,
            {
                let keys = expand_keys(&items[i].storage_keys);
                out.push((h160_to_b160(items[i].address), keys));
                i = i + 1;
            }
            assert(out@.map_values(|entry: (B160, Vec<RU256>)| access_entry_view(entry))
                =~= expanded_access_list(Some(items@.map_values(|item: AccessListItem| item@))));
        },
        None => {
            assert(out@.map_values(|entry: (B160, Vec<RU256>)| access_entry_view(entry))
                =~= Seq::empty());
        },
    }
    out
}

/// Fills the transaction context of `env` from a pending transaction: sender, gas limit, price
/// and priority fee, nonce, the expanded access list, value, call data, and the execution mode
/// (a call where there is a recipient, a creation where there is none). The block context and
/// the chain id are left as they were.
pub fn configure_tx_env(env: &mut Env, tx: &Transaction)
    requires
        tx.fits_engine(),
    ensures
        final(env)@ == (EnvView {
            block: old(env)@.block,
            tx: configured_tx_env(old(env)@.tx, tx@),
        }),
{
    env.tx.caller = h160_to_b160(tx.from);
    env.tx.gas_limit = as_u64(&tx.gas);
    env.tx.gas_price = match tx.gas_price {
        Some(price) => u256_to_ru256(price),
        None => RU256::zero(),
    };
    env.tx.gas_priority_fee = match tx.max_priority_fee_per_gas {
        Some(fee) => Some(u256_to_ru256(fee)),
        None => None,
    };
    env.tx.nonce = Some(as_u64(&tx.nonce));
    env.tx.access_list = expand_access_list(&tx.access_list);
    env.tx.value = u256_to_ru256(tx.value);
    env.tx.data = tx.input.clone();
    env.tx.transact_to = match tx.to {
        Some(to) => TransactTo::Call(h160_to_b160(to)),
        None => TransactTo::create(),
    };
    assert(env.tx@ == configured_tx_env(old(env)@.tx, tx@));
}

} // verus!
