//! The execution environment handed to the engine: one block context and one transaction context.

use crate::chain::{opt_bytes, opt_number};
use crate::primitives::{pow2_192, pow2_64, B160, B256, RU256};
use vstd::prelude::*;

verus! {

/// How a contract creation derives the new contract's address.
#[derive(Clone, Copy, Debug, PartialEq, Eq)]
pub enum CreateScheme {
    /// The address follows from the sender and its nonce.
    Create,
    /// The address follows from the sender, a salt and the code.
    Create2 { salt: RU256 },
}

/// What the transaction does: call an existing account or create a contract.
#[derive(Clone, Copy, Debug, PartialEq, Eq)]
pub enum TransactTo {
    Call(B160),
    Create(CreateScheme),
}

/// The two execution modes, with the callee's address as its bytes.
pub enum TransactToView {
    Call(Seq<u8>),
    Create,
    Create2(nat),
}

impl View for TransactTo {
    type V = TransactToView;

    open spec fn view(&self) -> TransactToView {
        match *self {
            TransactTo::Call(address) => TransactToView::Call(address@),
            TransactTo::Create(CreateScheme::Create) => TransactToView::Create,
            TransactTo::Create(CreateScheme::Create2 { salt }) => TransactToView::Create2(salt@),
        }
    }
}

impl TransactTo {
    /// The plain contract-creation mode.
    pub fn create() -> (mode: Self)
        ensures
            mode@ == TransactToView::Create,
    {
        TransactTo::Create(CreateScheme::Create)
    }

    /// Whether this is a contract creation.
    pub fn is_create(&self) -> (answer: bool)
        ensures
            answer == !(self@ is Call),
    {
        match self {
            TransactTo::Call(_) => false,
            TransactTo::Create(_) => true,
        }
    }
}

/// The block context of one simulation.
#[derive(Clone, Copy, Debug, PartialEq, Eq)]
pub struct BlockEnv {
    pub number: RU256,
    pub coinbase: B160,
    pub timestamp: RU256,
    pub difficulty: RU256,
    /// Randomness of the block; `None` when the header had none.
    pub prevrandao: Option<B256>,
    pub basefee: RU256,
    pub gas_limit: RU256,
}

/// What a block context says, in numbers and byte strings.
pub struct BlockEnvView {
    pub number: nat,
    pub coinbase: Seq<u8>,
    pub timestamp: nat,
    pub difficulty: nat,
    pub prevrandao: Option<Seq<u8>>,
    pub basefee: nat,
    pub gas_limit: nat,
}

impl View for BlockEnv {
    type V = BlockEnvView;

    open spec fn view(&self) -> BlockEnvView {
        BlockEnvView {
            number: self.number@,
            coinbase: self.coinbase@,
            timestamp: self.timestamp@,
            difficulty: self.difficulty@,
            prevrandao: opt_bytes(self.prevrandao),
            basefee: self.basefee@,
            gas_limit: self.gas_limit@,
        }
    }
}

/// The transaction context of one simulation.
#[derive(Clone, Debug, PartialEq, Eq)]
pub struct TxEnv {
    pub caller: B160,
    pub gas_limit: u64,
    pub gas_price: RU256,
    pub gas_priority_fee: Option<RU256>,
    pub transact_to: TransactTo,
    pub value: RU256,
    pub data: Vec<u8>,
    pub chain_id: Option<u64>,
    pub nonce: Option<u64>,
    /// Addresses with the storage keys declared for each, in the transaction's order.
    pub access_list: Vec<(B160, Vec<RU256>)>,
}

/// What a transaction context says, in numbers and byte strings.
pub struct TxEnvView {
    pub caller: Seq<u8>,
    pub gas_limit: u64,
    pub gas_price: nat,
    pub gas_priority_fee: Option<nat>,
    pub transact_to: TransactToView,
    pub value: nat,
    pub data: Seq<u8>,
    pub chain_id: Option<u64>,
    pub nonce: Option<u64>,
    pub access_list: Seq<(Seq<u8>, Seq<nat>)>,
}

/// The address bytes and key numbers of one access-list entry of a transaction context.
pub open spec fn access_entry_view(entry: (B160, Vec<RU256>)) -> (Seq<u8>, Seq<nat>) {
    (entry.0@, entry.1@.map_values(|key: RU256| key@))
}

impl View for TxEnv {
    type V = TxEnvView;

    open spec fn view(&self) -> TxEnvView {
        TxEnvView {
            caller: self.caller@,
            gas_limit: self.gas_limit,
            gas_price: self.gas_price@,
            gas_priority_fee: opt_number(self.gas_priority_fee),
            transact_to: self.transact_to@,
            value: self.value@,
            data: self.data@,
            chain_id: self.chain_id,
            nonce: self.nonce,
            access_list: self.access_list@.map_values(
                |entry: (B160, Vec<RU256>)| access_entry_view(entry),
            ),
        }
    }
}

/// The whole environment of one simulation.
#[derive(Clone, Debug, PartialEq, Eq)]
pub struct Env {
    pub block: BlockEnv,
    pub tx: TxEnv,
}

/// What an environment says.
pub struct EnvView {
    pub block: BlockEnvView,
    pub tx: TxEnvView,
}

impl View for Env {
    type V = EnvView;

    open spec fn view(&self) -> EnvView {
        EnvView { block: self.block@, tx: self.tx@ }
    }
}

/// The block context an environment starts with: block zero at time one, no fees, no gas bound,
/// all-zero beneficiary and randomness.
pub open spec fn initial_block_env() -> BlockEnvView {
    BlockEnvView {
        number: 0,
        coinbase: Seq::new(20, |i: int| 0u8),
        timestamp: 1,
        difficulty: 0,
        prevrandao: Some(Seq::new(32, |i: int| 0u8)),
        basefee: 0,
        gas_limit: (pow2_64() * pow2_192() - 1) as nat,
    }
}

/// The transaction context an environment starts with: a call of the all-zero address by the
/// all-zero address that moves nothing, with no gas bound and nothing declared.
pub open spec fn initial_tx_env() -> TxEnvView {
    TxEnvView {
        caller: Seq::new(20, |i: int| 0u8),
        gas_limit: u64::MAX,
        gas_price: 0,
        gas_priority_fee: None,
        transact_to: TransactToView::Call(Seq::new(20, |i: int| 0u8)),
        value: 0,
        data: Seq::empty(),
        chain_id: None,
        nonce: None,
        access_list: Seq::empty(),
    }
}

impl Env {
    /// A fresh environment, as the engine has it before anything is filled in.
    pub fn new() -> (env: Self)
        ensures
            env@.block == initial_block_env(),
            env@.tx == initial_tx_env(),
    {
        let block = BlockEnv {
            number: RU256::zero(),
            coinbase: B160([0u8;20]),
            timestamp: RU256::from_u64(1),
            difficulty: RU256::zero(),
            prevrandao: Some(B256([0u8;32])),
            basefee: RU256::zero(),
            gas_limit: RU256::max_value(),
        };
        let tx = TxEnv {
            caller: B160([0u8;20]),
            gas_limit: u64::MAX,
            gas_price: RU256::zero(),
            gas_priority_fee: None,
            transact_to: TransactTo::Call(B160([0u8;20])),
            value: RU256::zero(),
            data: Vec::new(),
            chain_id: None,
            nonce: None,
            access_list: Vec::new(),
        };
        proof {
            assert(block.coinbase@ =~= Seq::new(20, |i: int| 0u8));
            assert(block.prevrandao.unwrap()@ =~= Seq::new(32, |i: int| 0u8));
            assert(tx.caller@ =~= Seq::new(20, |i: int| 0u8));
            assert(tx.access_list@.map_values(|entry: (B160, Vec<RU256>)| access_entry_view(entry))
                =~= Seq::empty());
        }
        Env { block, tx }
    }
}

} // verus!
