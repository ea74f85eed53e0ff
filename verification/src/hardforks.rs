//! When the rules of a chain change.

use alloy_hardforks::{
    EthereumChainHardforks, EthereumHardforks, ForkCondition as ChainForkCondition,
};

use vstd::prelude::*;

use crate::primitives::U256;

verus! {

/// The hardforks that block execution asks for.
#[derive(Debug, Clone, Copy, PartialEq, Eq, Structural)]
pub enum EthereumHardfork {
    /// The DAO fork.
    Dao,
    /// Spurious Dragon.
    SpuriousDragon,
    /// Prague.
    Prague,
}

/// The condition at which a fork is activated.
#[derive(Debug, Clone, Copy)]
pub enum ForkCondition {
    /// The fork is activated at a certain block.
    Block(u64),
    /// The fork is activated after a total difficulty has been reached.
    TTD {
        /// The first block at which the fork is active.
        activation_block_number: u64,
        /// The block at which the total difficulty is reached, if it is known.
        fork_block: Option<u64>,
        /// The total difficulty after which the fork is activated.
        total_difficulty: U256,
    },
    /// The fork is activated at a specific timestamp.
    Timestamp(u64),
    /// The fork is never activated.
    Never,
}

impl ForkCondition {
    /// Whether the block `number` is at or after the block at which the fork is activated.
    pub open spec fn is_active_at_block(self, number: u64) -> bool {
        match self {
            ForkCondition::Block(block) => number >= block,
            ForkCondition::TTD { activation_block_number, .. } => number >= activation_block_number,
            ForkCondition::Timestamp(_) => false,
            ForkCondition::Never => false,
        }
    }

    /// Whether the fork is activated by block number, and exactly at the block `number`.
    pub open spec fn is_transition_block(self, number: u64) -> bool {
        self == ForkCondition::Block(number)
    }

    /// Whether the fork is activated by timestamp, and no later than `timestamp`.
    pub open spec fn is_active_at_timestamp(self, timestamp: u64) -> bool {
        match self {
            ForkCondition::Timestamp(time) => timestamp >= time,
            _ => false,
        }
    }

    /// Whether the fork is active at the block `number`. False for timestamp conditions.
    pub fn active_at_block(&self, number: u64) -> (active: bool)
        ensures
            active == self.is_active_at_block(number),
    {
        condition_active_at_block(*self, number)
    }

    /// Whether the block `number` is the first at which the fork is active. False for every
    /// condition that is not a block number.
    pub fn transitions_at_block(&self, number: u64) -> (transitions: bool)
        ensures
            transitions == self.is_transition_block(number),
    {
        condition_transitions_at_block(*self, number)
    }

    /// Whether the fork is active at `timestamp`. False for every condition that is not a
    /// timestamp.
    pub fn active_at_timestamp(&self, timestamp: u64) -> (active: bool)
        ensures
            active == self.is_active_at_timestamp(timestamp),
    {
        condition_active_at_timestamp(*self, timestamp)
    }
}

/// Whether a fork with the condition `condition` is active at the block `number`.
///
/// This calls `alloy_hardforks::ForkCondition::active_at_block`. The contract claims that it is
/// true from the activation block of a block or total difficulty condition on, and false for the
/// other conditions.
#[verifier::external_body]
fn condition_active_at_block(condition: ForkCondition, number: u64) -> (active: bool)
    ensures
        active == condition.is_active_at_block(number),
{
    match condition {
        ForkCondition::Block(block) => ChainForkCondition::Block(block),
        ForkCondition::TTD { activation_block_number, fork_block, total_difficulty } => {
            ChainForkCondition::TTD {
                activation_block_number,
                fork_block,
                total_difficulty: alloy_primitives::U256::from_limbs(total_difficulty.limbs),
            }
        },
        ForkCondition::Timestamp(time) => ChainForkCondition::Timestamp(time),
        ForkCondition::Never => ChainForkCondition::Never,
    }.active_at_block(number)
}

/// Whether the block `number` is the first of a fork with the condition `condition`.
///
/// This calls `alloy_hardforks::ForkCondition::transitions_at_block`. The contract claims that it
/// is true of the activation block of a block condition and false otherwise.
#[verifier::external_body]
fn condition_transitions_at_block(condition: ForkCondition, number: u64) -> (transitions: bool)
    ensures
        transitions == condition.is_transition_block(number),
{
    match condition {
        ForkCondition::Block(block) => ChainForkCondition::Block(block),
        ForkCondition::TTD { activation_block_number, fork_block, total_difficulty } => {
            ChainForkCondition::TTD {
                activation_block_number,
                fork_block,
                total_difficulty: alloy_primitives::U256::from_limbs(total_difficulty.limbs),
            }
        },
        ForkCondition::Timestamp(time) => ChainForkCondition::Timestamp(time),
        ForkCondition::Never => ChainForkCondition::Never,
    }.transitions_at_block(number)
}

/// Whether a fork with the condition `condition` is active at `timestamp`.
///
/// This calls `alloy_hardforks::ForkCondition::active_at_timestamp`. The contract claims that it
/// is true from the time of a timestamp condition on, and false for the other conditions.
#[verifier::external_body]
fn condition_active_at_timestamp(condition: ForkCondition, timestamp: u64) -> (active: bool)
    ensures
        active == condition.is_active_at_timestamp(timestamp),
{
    match condition {
        ForkCondition::Block(block) => ChainForkCondition::Block(block),
        ForkCondition::TTD { activation_block_number, fork_block, total_difficulty } => {
            ChainForkCondition::TTD {
                activation_block_number,
                fork_block,
                total_difficulty: alloy_primitives::U256::from_limbs(total_difficulty.limbs),
            }
        },
        ForkCondition::Timestamp(time) => ChainForkCondition::Timestamp(time),
        ForkCondition::Never => ChainForkCondition::Never,
    }.active_at_timestamp(timestamp)
}

/// The schedule by which a chain activates its forks.
pub trait EthExecutorSpec {
    /// The condition at which `fork` is activated.
    spec fn activation(&self, fork: EthereumHardfork) -> ForkCondition;

    /// Returns the condition at which `fork` is activated.
    fn ethereum_fork_activation(&self, fork: EthereumHardfork) -> (condition: ForkCondition)
        ensures
            condition == self.activation(fork),
    ;

    /// Whether Spurious Dragon is active at the block `number`.
    fn is_spurious_dragon_active_at_block(&self, number: u64) -> (active: bool)
        ensures
            active == self.activation(EthereumHardfork::SpuriousDragon).is_active_at_block(number),
    {
        self.ethereum_fork_activation(EthereumHardfork::SpuriousDragon).active_at_block(number)
    }

    /// Whether Prague is active at `timestamp`.
    fn is_prague_active_at_timestamp(&self, timestamp: u64) -> (active: bool)
        ensures
            active == self.activation(EthereumHardfork::Prague).is_active_at_timestamp(timestamp),
    {
        self.ethereum_fork_activation(EthereumHardfork::Prague).active_at_timestamp(timestamp)
    }
}

impl<T: EthExecutorSpec> EthExecutorSpec for &T {
    open spec fn activation(&self, fork: EthereumHardfork) -> ForkCondition {
        (**self).activation(fork)
    }

    fn ethereum_fork_activation(&self, fork: EthereumHardfork) -> (condition: ForkCondition) {
        (**self).ethereum_fork_activation(fork)
    }
}

/// The fork schedules of `alloy_hardforks`.
#[verifier::external_type_specification]
#[verifier::external_body]
pub struct ExEthereumChainHardforks(EthereumChainHardforks);

/// The conditions that a schedule holds.
pub uninterp spec fn fork_schedule(forks: EthereumChainHardforks) -> Map<
    EthereumHardfork,
    ForkCondition,
>;

/// The schedule of Ethereum mainnet.
///
/// This calls `alloy_hardforks::EthereumChainHardforks::mainnet`. The contract claims when the
/// forks that block execution asks for are activated there.
#[verifier::external_body]
fn mainnet_hardforks() -> (forks: EthereumChainHardforks)
    ensures
        fork_schedule(forks)[EthereumHardfork::Dao] == ForkCondition::Block(1_920_000),
        fork_schedule(forks)[EthereumHardfork::SpuriousDragon] == ForkCondition::Block(2_675_000),
        fork_schedule(forks)[EthereumHardfork::Prague] == ForkCondition::Timestamp(1_746_612_311),
{
    EthereumChainHardforks::mainnet()
}

/// The condition at which `fork` is activated by the schedule `forks`.
///
/// This calls `ethereum_fork_activation` of `alloy_hardforks::EthereumChainHardforks`. The
/// contract claims that it looks the condition of the fork up.
#[verifier::external_body]
fn chain_fork_activation(forks: &EthereumChainHardforks, fork: EthereumHardfork) -> (condition:
    ForkCondition)
    ensures
        condition == fork_schedule(*forks)[fork],
{
    let condition = forks.ethereum_fork_activation(match fork {
        EthereumHardfork::Dao => alloy_hardforks::EthereumHardfork::Dao,
        EthereumHardfork::SpuriousDragon => alloy_hardforks::EthereumHardfork::SpuriousDragon,
        EthereumHardfork::Prague => alloy_hardforks::EthereumHardfork::Prague,
    });
    match condition {
        ChainForkCondition::Block(block) => ForkCondition::Block(block),
        ChainForkCondition::TTD { activation_block_number, fork_block, total_difficulty } => {
            let total_difficulty = U256 { limbs: total_difficulty.into_limbs() };
            ForkCondition::TTD { activation_block_number, fork_block, total_difficulty }
        },
        ChainForkCondition::Timestamp(time) => ForkCondition::Timestamp(time),
        ChainForkCondition::Never => ForkCondition::Never,
    }
}

/// The schedule of a well known Ethereum chain.
#[derive(Debug)]
pub struct EthSpec {
    hardforks: EthereumChainHardforks,
}

impl EthSpec {
    /// The schedule of Ethereum mainnet.
    pub fn mainnet() -> (spec: Self)
        ensures
            spec.activation(EthereumHardfork::Dao) == ForkCondition::Block(1_920_000),
            spec.activation(EthereumHardfork::SpuriousDragon) == ForkCondition::Block(2_675_000),
            spec.activation(EthereumHardfork::Prague) == ForkCondition::Timestamp(1_746_612_311),
    {
        EthSpec { hardforks: mainnet_hardforks() }
    }
}

impl EthExecutorSpec for EthSpec {
    closed spec fn activation(&self, fork: EthereumHardfork) -> ForkCondition {
        fork_schedule(self.hardforks)[fork]
    }

    fn ethereum_fork_activation(&self, fork: EthereumHardfork) -> (condition: ForkCondition) {
        chain_fork_activation(&self.hardforks, fork)
    }
}

/// A fork that is activated by block number is active from its transition block on, and at no
/// block before.
pub proof fn law_active_from_the_transition_on(condition: ForkCondition, first: u64, number: u64)
    requires
        condition.is_transition_block(first),
    ensures
        condition.is_active_at_block(number) <==> number >= first,
        condition.is_transition_block(number) <==> number == first,
{
}

} // verus!
