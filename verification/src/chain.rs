//! Block headers and pending transactions as the blockchain client reports them.

use crate::primitives::{H160, H256, U256};
use vstd::prelude::*;

verus! {

/// The bytes of an optional address or hash.
pub open spec fn opt_bytes<T: View<V = Seq<u8>>>(value: Option<T>) -> Option<Seq<u8>> {
    match value {
        Some(v) => Some(v@),
        None => None,
    }
}

/// The number held by an optional 256-bit value.
pub open spec fn opt_number<T: View<V = nat>>(value: Option<T>) -> Option<nat> {
    match value {
        Some(v) => Some(v@),
        None => None,
    }
}

/// One observed block header. A header is taken over whole and never changed afterwards.
#[derive(Clone, Copy, Debug, PartialEq, Eq)]
pub struct Block {
    /// Height of the block.
    pub number: u64,
    pub timestamp: U256,
    /// Beneficiary of the block's fees; may be left out by the client.
    pub author: Option<H160>,
    pub difficulty: U256,
    /// Randomness of the block; absent before the network provided one.
    pub mix_hash: Option<H256>,
    /// Base fee per gas; absent before the network had one.
    pub base_fee_per_gas: Option<U256>,
    pub gas_limit: U256,
}

/// What a block header says, in numbers and byte strings.
pub struct BlockView {
    pub number: u64,
    pub timestamp: nat,
    pub author: Option<Seq<u8>>,
    pub difficulty: nat,
    pub mix_hash: Option<Seq<u8>>,
    pub base_fee_per_gas: Option<nat>,
    pub gas_limit: nat,
}

impl View for Block {
    type V = BlockView;

    open spec fn view(&self) -> BlockView {
        BlockView {
            number: self.number,
            timestamp: self.timestamp@,
            author: opt_bytes(self.author),
            difficulty: self.difficulty@,
            mix_hash: opt_bytes(self.mix_hash),
            base_fee_per_gas: opt_number(self.base_fee_per_gas),
            gas_limit: self.gas_limit@,
        }
    }
}

/// An address together with the storage keys a transaction declares it will touch there.
#[derive(Clone, Debug, PartialEq, Eq)]
pub struct AccessListItem {
    pub address: H160,
    pub storage_keys: Vec<H256>,
}

/// What an access-list entry says: the address bytes and the keys, each as its 32 bytes.
pub struct AccessListItemView {
    pub address: Seq<u8>,
    pub storage_keys: Seq<Seq<u8>>,
}

impl View for AccessListItem {
    type V = AccessListItemView;

    open spec fn view(&self) -> AccessListItemView {
        AccessListItemView {
            address: self.address@,
            storage_keys: self.storage_keys@.map_values(|key: H256| key@),
        }
    }
}

/// One pending transaction as observed in the feed.
#[derive(Clone, Debug, PartialEq, Eq)]
pub struct Transaction {
    pub hash: H256,
    pub nonce: U256,
    pub from: H160,
    /// Recipient; absent for a contract creation.
    pub to: Option<H160>,
    pub value: U256,
    /// Price per gas; the client leaves it out for fee-cap transactions.
    pub gas_price: Option<U256>,
    pub gas: U256,
    pub input: Vec<u8>,
    pub access_list: Option<Vec<AccessListItem>>,
    pub max_priority_fee_per_gas: Option<U256>,
    /// The most the sender is willing to pay per gas.
    pub max_fee_per_gas: Option<U256>,
}

/// What a pending transaction says, in numbers and byte strings.
pub struct TransactionView {
    pub hash: Seq<u8>,
    pub nonce: nat,
    pub from: Seq<u8>,
    pub to: Option<Seq<u8>>,
    pub value: nat,
    pub gas_price: Option<nat>,
    pub gas: nat,
    pub input: Seq<u8>,
    pub access_list: Option<Seq<AccessListItemView>>,
    pub max_priority_fee_per_gas: Option<nat>,
    pub max_fee_per_gas: Option<nat>,
}

impl View for Transaction {
    type V = TransactionView;

    open spec fn view(&self) -> TransactionView {
        TransactionView {
            hash: self.hash@,
            nonce: self.nonce@,
            from: self.from@,
            to: opt_bytes(self.to),
            value: self.value@,
            gas_price: opt_number(self.gas_price),
            gas: self.gas@,
            input: self.input@,
            access_list: match self.access_list {
                Some(list) => Some(list@.map_values(|item: AccessListItem| item@)),
                None => None,
            },
            max_priority_fee_per_gas: opt_number(self.max_priority_fee_per_gas),
            max_fee_per_gas: opt_number(self.max_fee_per_gas),
        }
    }
}

impl Transaction {
    /// Whether gas limit and nonce can each be held by a `u64`, as the execution engine needs.
    pub open spec fn spec_fits_engine(&self) -> bool {
        self.gas@ <= u64::MAX && self.nonce@ <= u64::MAX
    }

    /// Whether the execution engine can take this transaction's gas limit and nonce: each has
    /// to fit a `u64`.
    #[verifier::when_used_as_spec(spec_fits_engine)]
    pub fn fits_engine(&self) -> (fits: bool)
        ensures
            fits == self.spec_fits_engine(),
    {
        self.gas.fits_u64() && self.nonce.fits_u64()
    }
}

} // verus!
