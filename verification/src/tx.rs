//! The transaction environment.

use vstd::prelude::*;

use crate::primitives::{Address, ChainAddress, B256, U256};

verus! {

/// What a transaction does.
#[derive(Debug, Clone, Copy)]
pub enum TxKind {
    /// It creates a contract.
    Create,
    /// It calls an account.
    Call(ChainAddress),
}

/// An account and the storage slots that a transaction plans to read there.
#[derive(Debug, Clone)]
pub struct AccessListItem {
    /// The account.
    pub address: Address,
    /// The storage slots.
    pub storage_keys: Vec<B256>,
}

/// A signed permission to place code at an account.
#[derive(Debug, Clone, Copy)]
pub struct SignedAuthorization {
    /// The chain that it holds for, or 0 for all.
    pub chain_id: U256,
    /// The account whose code is placed.
    pub address: Address,
    /// The nonce of the signer.
    pub nonce: u64,
    /// The parity of the signature.
    pub y_parity: u8,
    /// The first half of the signature.
    pub r: U256,
    /// The second half of the signature.
    pub s: U256,
}

/// The environment of one transaction.
#[derive(Debug, Clone)]
pub struct TxEnv {
    /// The type of the transaction.
    pub tx_type: u8,
    /// The account that signed it.
    pub caller: ChainAddress,
    /// Its gas limit.
    pub gas_limit: u64,
    /// Its gas price.
    pub gas_price: u128,
    /// What it does.
    pub kind: TxKind,
    /// The value that it sends.
    pub value: U256,
    /// Its data.
    pub data: Vec<u8>,
    /// Its nonce.
    pub nonce: u64,
    /// The chain that it was signed for.
    pub chain_id: Option<u64>,
    /// The chains that it can reach.
    pub chain_ids: Option<Vec<u64>>,
    /// The accounts and storage slots that it plans to read.
    pub access_list: Vec<AccessListItem>,
    /// The priority fee per gas.
    pub gas_priority_fee: Option<u128>,
    /// The hashes of its blobs.
    pub blob_hashes: Vec<B256>,
    /// The highest fee per blob gas.
    pub max_fee_per_blob_gas: u128,
    /// The permissions that it carries.
    pub authorization_list: Vec<SignedAuthorization>,
}

/// The account `account`, moved to the chain `chain_id` where it is on chain 0.
pub open spec fn on_chain(account: ChainAddress, chain_id: u64) -> ChainAddress {
    if account.0 == 0 {
        ChainAddress(chain_id, account.1)
    } else {
        account
    }
}

impl TxEnv {
    /// The transaction as one of the chain `chain_id`, where it names no chain itself: its chain
    /// id is `chain_id`, and so is that of the accounts that it names on chain 0.
    pub open spec fn completed(self, chain_id: u64) -> TxEnv {
        if self.chain_id is Some {
            self
        } else {
            TxEnv {
                chain_id: Some(chain_id),
                caller: on_chain(self.caller, chain_id),
                kind: match self.kind {
                    TxKind::Call(account) => TxKind::Call(on_chain(account, chain_id)),
                    TxKind::Create => TxKind::Create,
                },
                ..self
            }
        }
    }

    /// Makes a transaction that names no chain one of the chain `chain_id`.
    pub fn complete(&mut self, chain_id: u64)
        ensures
            *final(self) == old(self).completed(chain_id),
    {
        if self.chain_id.is_none() {
            self.chain_id = Some(chain_id);
            if self.caller.0 == 0 {
                self.caller = ChainAddress::new(chain_id, self.caller.1);
            }
            if let TxKind::Call(account) = self.kind {
                if account.0 == 0 {
                    self.kind = TxKind::Call(ChainAddress::new(chain_id, account.1));
                }
            }
        }
    }
}

impl TxEnv {
    /// Whether this is the transaction that a machine starts with: a call of the zero account by
    /// itself, signed for chain 1, with no value, no data and the gas limit 16777216.
    pub open spec fn is_initial(self) -> bool {
        &&& self.tx_type == 0
        &&& self.caller.0 == 0
        &&& forall|i: int| 0 <= i < 20 ==> self.caller.1@[i] == 0
        &&& self.gas_limit == 16_777_216
        &&& self.gas_price == 0
        &&& self.kind == TxKind::Call(self.caller)
        &&& self.value@ == 0
        &&& self.data@.len() == 0
        &&& self.nonce == 0
        &&& self.chain_id == Some(1u64)
        &&& self.chain_ids is None
        &&& self.access_list@.len() == 0
        &&& self.gas_priority_fee is None
        &&& self.blob_hashes@.len() == 0
        &&& self.max_fee_per_blob_gas == 0
        &&& self.authorization_list@.len() == 0
    }
}

impl Default for TxEnv {
    fn default() -> (tx: Self)
        ensures
            tx.is_initial(),
    {
        let zero: Address = [0, 0, 0, 0, 0, 0, 0, 0, 0, 0, 0, 0, 0, 0, 0, 0, 0, 0, 0, 0];
        let account = ChainAddress::new(0, zero);
        TxEnv {
            tx_type: 0,
            caller: account,
            gas_limit: 16_777_216,
            gas_price: 0,
            kind: TxKind::Call(account),
            value: U256::from_u64(0),
            data: Vec::new(),
            nonce: 0,
            chain_id: Some(1),
            chain_ids: None,
            access_list: Vec::new(),
            gas_priority_fee: None,
            blob_hashes: Vec::new(),
            max_fee_per_blob_gas: 0,
            authorization_list: Vec::new(),
        }
    }
}

/// What can be turned into the environment of a transaction.
pub trait IntoTxEnv<T>: Sized {
    /// The environment.
    spec fn tx_env(self) -> T;

    /// Turns the value into the environment.
    fn into_tx_env(self) -> (tx: T)
        ensures
            tx == self.tx_env(),
    ;
}

impl IntoTxEnv<TxEnv> for TxEnv {
    open spec fn tx_env(self) -> TxEnv {
        self
    }

    fn into_tx_env(self) -> (tx: TxEnv) {
        self
    }
}

/// A transaction names a chain once it is completed.
pub proof fn law_completed_names_a_chain(tx: TxEnv, chain_id: u64)
    ensures
        tx.completed(chain_id).chain_id is Some,
{
}

/// To complete a transaction again, for any chain, changes nothing.
pub proof fn law_completed_once(tx: TxEnv, first: u64, second: u64)
    ensures
        tx.completed(first).completed(second) == tx.completed(first),
{
}

/// A transaction that names a chain is left as it is.
pub proof fn law_named_chain_is_kept(tx: TxEnv, chain_id: u64)
    requires
        tx.chain_id is Some,
    ensures
        tx.completed(chain_id) == tx,
{
}

} // verus!
