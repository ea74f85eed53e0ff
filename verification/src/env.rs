//! Configuration types for the execution environment.

use std::collections::HashMap;

use vstd::prelude::*;

use crate::precompiles::SpecId;
use crate::primitives::{Address, B256, U256};

verus! {

broadcast use vstd::std_specs::hash::group_hash_axioms;

/// The environment of one block.
#[derive(Debug, Clone, Copy)]
pub struct BlockEnv {
    /// The number of ancestors of the block.
    pub number: U256,
    /// The receiver of the fees of the block.
    pub beneficiary: Address,
    /// The time of the block, in seconds since the UNIX epoch.
    pub timestamp: U256,
    /// The gas limit of the block.
    pub gas_limit: u64,
    /// The base fee per gas.
    pub basefee: u64,
    /// The difficulty of the block.
    pub difficulty: U256,
    /// The output of the randomness beacon.
    pub prevrandao: Option<B256>,
    /// The excess blob gas and the blob gas price.
    pub blob_excess_gas_and_price: Option<(u64, u128)>,
}

/// The configuration of the machine.
#[derive(Debug, Clone, Copy)]
pub struct CfgEnv<Spec = SpecId> {
    /// The chain that the machine executes for.
    pub chain_id: u64,
    /// The chain that transactions without a chain id belong to, where it is not `chain_id`.
    pub parent_chain_id: Option<u64>,
    /// The rules that are in force.
    pub spec: Spec,
    /// Whether the chain id of a transaction is checked.
    pub tx_chain_id_check: bool,
    /// The limit of the size of contract code, where it is not that of the rules.
    pub limit_contract_code_size: Option<usize>,
    /// The limit of the size of initialisation code, where it is not that of the rules.
    pub limit_contract_initcode_size: Option<usize>,
    /// Whether the nonce of a transaction goes unchecked.
    pub disable_nonce_check: bool,
    /// The highest number of blobs of a transaction, where it is limited.
    pub max_blobs_per_tx: Option<u64>,
    /// The update fraction of the blob base fee, where it is not that of the rules.
    pub blob_base_fee_update_fraction: Option<u64>,
    /// The highest gas limit of a transaction, where it is not that of the rules.
    pub tx_gas_limit_cap: Option<u64>,
}

impl<Spec> CfgEnv<Spec> {
    /// Whether all settings but the rules are those of a new configuration: that of chain 1, with
    /// all checks and the limits of the rules.
    pub open spec fn is_plain(self) -> bool {
        self == CfgEnv {
            chain_id: 1,
            parent_chain_id: None,
            spec: self.spec,
            tx_chain_id_check: true,
            limit_contract_code_size: None,
            limit_contract_initcode_size: None,
            disable_nonce_check: false,
            max_blobs_per_tx: None,
            blob_base_fee_update_fraction: None,
            tx_gas_limit_cap: None,
        }
    }

    /// A new configuration under the rules `spec`.
    pub fn new_with_spec(spec: Spec) -> (cfg: Self)
        ensures
            cfg.spec == spec,
            cfg.is_plain(),
    {
        CfgEnv {
            chain_id: 1,
            parent_chain_id: None,
            spec,
            tx_chain_id_check: true,
            limit_contract_code_size: None,
            limit_contract_initcode_size: None,
            disable_nonce_check: false,
            max_blobs_per_tx: None,
            blob_base_fee_update_fraction: None,
            tx_gas_limit_cap: None,
        }
    }
}

impl<Spec: Default> Default for CfgEnv<Spec> {
    fn default() -> (cfg: Self)
        ensures
            cfg.is_plain(),
            call_ensures(Spec::default, (), cfg.spec),
    {
        CfgEnv::new_with_spec(Spec::default())
    }
}

/// Container type that holds both the configuration and the block environments of the chains.
#[derive(Debug, Clone)]
pub struct EvmEnv<Spec = SpecId> {
    /// The configuration environment.
    pub cfg_env: CfgEnv<Spec>,
    /// The block environment of each chain.
    pub block_env: HashMap<u64, BlockEnv>,
}

impl<Spec> EvmEnv<Spec> {
    /// Creates an `EvmEnv` from its components.
    pub fn new(cfg_env: CfgEnv<Spec>, block_env: HashMap<u64, BlockEnv>) -> (env: Self)
        ensures
            env == (EvmEnv { cfg_env, block_env }),
    {
        Self { cfg_env, block_env }
    }

    /// Returns a reference to the block environments.
    pub fn block_env(&self) -> (block_env: &HashMap<u64, BlockEnv>)
        ensures
            *block_env == self.block_env,
    {
        &self.block_env
    }

    /// Returns a reference to the configuration environment.
    pub fn cfg_env(&self) -> (cfg_env: &CfgEnv<Spec>)
        ensures
            *cfg_env == self.cfg_env,
    {
        &self.cfg_env
    }

    /// Returns the chain id of the environment.
    pub fn chainid(&self) -> (chain_id: u64)
        ensures
            chain_id == self.cfg_env.chain_id,
    {
        self.cfg_env.chain_id
    }

    /// Returns the rules that are in force.
    pub fn spec_id(&self) -> (spec: &Spec)
        ensures
            *spec == self.cfg_env.spec,
    {
        &self.cfg_env.spec
    }
}

impl<Spec> EvmEnv<Spec> {
    /// Whether there is a block environment for the chain of the configuration.
    pub open spec fn has_block(self) -> bool {
        has_block(self.block_env@, self.cfg_env.chain_id)
    }

    /// The block environment for the chain of the configuration.
    pub open spec fn block(self) -> BlockEnv {
        block_of(self.block_env@, self.cfg_env.chain_id)
    }
}

impl<Spec: Default> Default for EvmEnv<Spec> {
    fn default() -> (env: Self)
        ensures
            env.cfg_env.is_plain(),
            call_ensures(Spec::default, (), env.cfg_env.spec),
            env.block_env@ == Map::<u64, BlockEnv>::empty(),
    {
        EvmEnv { cfg_env: CfgEnv::default(), block_env: HashMap::new() }
    }
}

impl<Spec> From<(CfgEnv<Spec>, HashMap<u64, BlockEnv>)> for EvmEnv<Spec> {
    fn from(parts: (CfgEnv<Spec>, HashMap<u64, BlockEnv>)) -> (env: Self) {
        EvmEnv { cfg_env: parts.0, block_env: parts.1 }
    }
}

impl<Spec> vstd::std_specs::convert::FromSpecImpl<(CfgEnv<Spec>, HashMap<u64, BlockEnv>)> for EvmEnv<Spec> {
    open spec fn obeys_from_spec() -> bool {
        true
    }

    open spec fn from_spec(parts: (CfgEnv<Spec>, HashMap<u64, BlockEnv>)) -> Self {
        EvmEnv { cfg_env: parts.0, block_env: parts.1 }
    }
}

/// Whether there is an environment for the chain `chain_id`, its own or that of chain 0.
pub open spec fn has_block(blocks: Map<u64, BlockEnv>, chain_id: u64) -> bool {
    blocks.contains_key(chain_id) || blocks.contains_key(0)
}

/// The environment of the chain `chain_id`: its own, or else that of chain 0.
pub open spec fn block_of(blocks: Map<u64, BlockEnv>, chain_id: u64) -> BlockEnv {
    if blocks.contains_key(chain_id) {
        blocks[chain_id]
    } else {
        blocks[0]
    }
}

/// Looks the environment of the chain `chain_id` up, and falls back to that of chain 0.
pub fn find_block(blocks: &HashMap<u64, BlockEnv>, chain_id: u64) -> (block: Option<&BlockEnv>)
    ensures
        block is Some <==> has_block(blocks@, chain_id),
        block matches Some(b) ==> *b == block_of(blocks@, chain_id),
{
    match blocks.get(&chain_id) {
        Some(block) => Some(block),
        None => blocks.get(&0),
    }
}

/// The chains to which `map` gives a value, each once, in no particular order.
pub(crate) fn chain_ids<V>(map: &HashMap<u64, V>) -> (chain_ids: Vec<u64>)
    ensures
        chain_ids@.no_duplicates(),
        chain_ids@.to_set() == map@.dom(),
{
    let mut chain_ids: Vec<u64> = Vec::new();
    for chain_id in keys: map.keys()
        invariant
            chain_ids@ =~= keys.seq().unref().take(keys.index()),
            keys.index() == keys.seq().len() ==> chain_ids@ =~= keys.seq().unref(),
            keys.seq().unref().to_set() == map@.dom(),
    {
        chain_ids.push(*chain_id);
    }
    chain_ids
}

/// With an environment for chain 0 every chain has one: its own where it has one, and that of
/// chain 0 otherwise.
pub proof fn law_chain_zero_is_the_fallback(
    blocks: Map<u64, BlockEnv>,
    fallback: BlockEnv,
    chain_id: u64,
)
    ensures
        has_block(blocks.insert(0, fallback), chain_id),
        !blocks.contains_key(chain_id) ==> block_of(blocks.insert(0, fallback), chain_id)
            == fallback,
        blocks.contains_key(chain_id) && chain_id != 0 ==> block_of(
            blocks.insert(0, fallback),
            chain_id,
        ) == blocks[chain_id],
{
}

} // verus!
