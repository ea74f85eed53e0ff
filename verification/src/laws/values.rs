//! Laws of numbers, environments, rules, sums and counters.

use std::collections::HashMap;

use vstd::prelude::*;

use crate::balances::{self, checked_sum, BalanceIncrements};
use crate::env::{find_block, BlockEnv, CfgEnv, EvmEnv};
use crate::error::{BlockExecutionError, BlockValidationError};
use crate::eth::block::CommitChanges;
use crate::eth::gas::{self, count_gas, gas_fits};
use crate::hardforks::{EthExecutorSpec, EthSpec, EthereumHardfork, ForkCondition};
use crate::precompiles::{PrecompileSpecId, PrecompilesMap, SpecId};
use crate::primitives::{same_address, Address, ChainAddress, B256, U256};
use crate::result::ExecutionResult;
use crate::tx::{IntoTxEnv, TxEnv, TxKind};

verus! {

broadcast use vstd::std_specs::hash::group_hash_axioms;

/// The limbs of a word are the digits of its number to the base 2^64, the lowest first.
pub proof fn law_limbs_are_digits(word: U256)
    ensures
        word@ % 0x1_0000_0000_0000_0000 == word.limbs@[0],
        word@ / 0x1_0000_0000_0000_0000 % 0x1_0000_0000_0000_0000 == word.limbs@[1],
        word@ / 0x1_0000_0000_0000_0000 / 0x1_0000_0000_0000_0000 % 0x1_0000_0000_0000_0000
            == word.limbs@[2],
        word@ / 0x1_0000_0000_0000_0000 / 0x1_0000_0000_0000_0000 / 0x1_0000_0000_0000_0000
            == word.limbs@[3],
{
}

/// A small number is its lowest limb, and has no other.
pub proof fn law_small_number_is_its_lowest_limb(value: u64, word: U256)
    requires
        call_ensures(U256::from_u64, (value,), word),
    ensures
        word@ == value,
        word.limbs@[0] == value,
        word.limbs@[1] == 0 && word.limbs@[2] == 0 && word.limbs@[3] == 0,
{
    law_limbs_are_digits(word);
}

/// A word that fits in 64 bits saturates to itself, and every other to the largest number there.
pub proof fn law_saturation_keeps_what_fits(word: U256, low: u64)
    requires
        call_ensures(U256::saturating_to, (&word,), low),
    ensures
        word.limbs@[1] == 0 && word.limbs@[2] == 0 && word.limbs@[3] == 0 ==> low
            == word.limbs@[0],
        word.limbs@[1] != 0 || word.limbs@[2] != 0 || word.limbs@[3] != 0 ==> low == u64::MAX,
{
}

/// Saturation keeps the order, and no word saturates to more than its number.
pub proof fn law_saturation_keeps_the_order(smaller: nat, larger: nat)
    requires
        smaller <= larger,
    ensures
        crate::primitives::saturated(smaller) <= crate::primitives::saturated(larger),
        crate::primitives::saturated(smaller) <= smaller,
        smaller <= u64::MAX ==> crate::primitives::saturated(smaller) == smaller,
        smaller > u64::MAX ==> crate::primitives::saturated(smaller) == u64::MAX,
{
}

/// An account has the chain and the address that it was made of.
pub proof fn law_account_has_its_parts(chain_id: u64, address: Address, account: ChainAddress)
    requires
        call_ensures(ChainAddress::new, (chain_id, address), account),
    ensures
        account.0 == chain_id,
        account.1 == address,
{
}

/// Two addresses are the same where all their bytes are.
pub proof fn law_same_address_compares_all_bytes(left: Address, right: Address, same: bool)
    requires
        call_ensures(same_address, (&left, &right), same),
    ensures
        same <==> forall|i: int| 0 <= i < 20 ==> left@[i] == right@[i],
{
    if forall|i: int| 0 <= i < 20 ==> left@[i] == right@[i] {
        assert(left =~= right);
    }
}

/// A chain finds its own block environment, or else that of chain 0, or else none.
pub proof fn law_chain_finds_its_block(
    blocks: HashMap<u64, BlockEnv>,
    chain_id: u64,
    block: Option<&BlockEnv>,
)
    requires
        call_ensures(find_block, (&blocks, chain_id), block),
    ensures
        blocks@.contains_key(chain_id) ==> block == Some(&blocks@[chain_id]),
        !blocks@.contains_key(chain_id) && blocks@.contains_key(0) ==> block == Some(&blocks@[0]),
        !blocks@.contains_key(chain_id) && !blocks@.contains_key(0) ==> block is None,
{
}

/// An environment has a block where its chain or chain 0 has one, and it is that of its chain
/// wherever there is one.
pub proof fn law_environment_has_the_block_of_its_chain<Spec>(env: EvmEnv<Spec>)
    ensures
        env.has_block() <==> env.block_env@.contains_key(env.cfg_env.chain_id)
            || env.block_env@.contains_key(0),
        env.block_env@.contains_key(env.cfg_env.chain_id) ==> env.block()
            == env.block_env@[env.cfg_env.chain_id],
        !env.block_env@.contains_key(env.cfg_env.chain_id) ==> env.block() == env.block_env@[0],
{
}

/// An environment gives back the parts that it was made of.
pub proof fn law_environment_has_its_parts<Spec>(
    cfg_env: CfgEnv<Spec>,
    block_env: HashMap<u64, BlockEnv>,
    env: EvmEnv<Spec>,
    blocks: &HashMap<u64, BlockEnv>,
    cfg: &CfgEnv<Spec>,
    chain_id: u64,
    spec: &Spec,
)
    requires
        call_ensures(EvmEnv::<Spec>::new, (cfg_env, block_env), env),
        call_ensures(EvmEnv::<Spec>::block_env, (&env,), blocks),
        call_ensures(EvmEnv::<Spec>::cfg_env, (&env,), cfg),
        call_ensures(EvmEnv::<Spec>::chainid, (&env,), chain_id),
        call_ensures(EvmEnv::<Spec>::spec_id, (&env,), spec),
    ensures
        env.cfg_env == cfg_env && env.block_env == block_env,
        *blocks == block_env,
        *cfg == cfg_env,
        chain_id == cfg_env.chain_id,
        *spec == cfg_env.spec,
{
}

/// An environment that is converted from its parts is the one that is made of them.
pub proof fn law_conversion_makes_the_same_environment<Spec>(
    cfg_env: CfgEnv<Spec>,
    block_env: HashMap<u64, BlockEnv>,
    env: EvmEnv<Spec>,
)
    requires
        call_ensures(
            <EvmEnv<Spec> as From<(CfgEnv<Spec>, HashMap<u64, BlockEnv>)>>::from,
            ((cfg_env, block_env),),
            env,
        ),
    ensures
        env.cfg_env == cfg_env,
        env.block_env == block_env,
{
}

/// A new configuration is that of chain 1, makes all checks and overrides nothing.
pub proof fn law_new_configuration_overrides_nothing<Spec>(spec: Spec, cfg: CfgEnv<Spec>)
    requires
        call_ensures(CfgEnv::<Spec>::new_with_spec, (spec,), cfg),
    ensures
        cfg.chain_id == 1,
        cfg.parent_chain_id is None,
        cfg.spec == spec,
        cfg.tx_chain_id_check,
        !cfg.disable_nonce_check,
        cfg.limit_contract_code_size is None,
        cfg.limit_contract_initcode_size is None,
        cfg.max_blobs_per_tx is None,
        cfg.blob_base_fee_update_fraction is None,
        cfg.tx_gas_limit_cap is None,
{
}

/// The default configuration is a new one under the default rules.
pub proof fn law_default_configuration_is_new<Spec: Default>(cfg: CfgEnv<Spec>)
    requires
        call_ensures(<CfgEnv<Spec> as Default>::default, (), cfg),
    ensures
        call_ensures(Spec::default, (), cfg.spec),
        cfg.chain_id == 1,
        cfg.parent_chain_id is None,
        cfg.tx_chain_id_check,
        !cfg.disable_nonce_check,
        cfg.limit_contract_code_size is None,
        cfg.limit_contract_initcode_size is None,
        cfg.max_blobs_per_tx is None,
        cfg.blob_base_fee_update_fraction is None,
        cfg.tx_gas_limit_cap is None,
{
}

/// The default environment is a new configuration without blocks.
pub proof fn law_default_environment_is_new<Spec: Default>(env: EvmEnv<Spec>)
    requires
        call_ensures(<EvmEnv<Spec> as Default>::default, (), env),
    ensures
        env.cfg_env.chain_id == 1,
        env.cfg_env.parent_chain_id is None,
        env.cfg_env.tx_chain_id_check,
        !env.cfg_env.disable_nonce_check,
        env.cfg_env.tx_gas_limit_cap is None,
        forall|chain_id: u64| !#[trigger] env.block_env@.contains_key(chain_id),
        call_ensures(Spec::default, (), env.cfg_env.spec),
{
}

/// The initial transaction is an empty call of the zero account by itself on chain 1.
pub proof fn law_initial_transaction_is_empty(tx: TxEnv)
    requires
        call_ensures(<TxEnv as Default>::default, (), tx),
    ensures
        tx.tx_type == 0 && tx.nonce == 0 && tx.gas_price == 0 && tx.max_fee_per_blob_gas == 0,
        tx.gas_limit == 16_777_216,
        tx.value@ == 0,
        tx.chain_id == Some(1u64),
        tx.chain_ids is None && tx.gas_priority_fee is None,
        tx.data@.len() == 0 && tx.access_list@.len() == 0 && tx.blob_hashes@.len() == 0,
        tx.authorization_list@.len() == 0,
        tx.kind == TxKind::Call(tx.caller),
        tx.caller.0 == 0,
        forall|i: int| 0 <= i < 20 ==> tx.caller.1@[i] == 0,
{
}

/// A transaction is the environment of itself.
pub proof fn law_transaction_is_its_own_environment(tx: TxEnv, env: TxEnv)
    requires
        call_ensures(<TxEnv as IntoTxEnv<TxEnv>>::into_tx_env, (tx,), env),
    ensures
        env == tx,
        tx.tx_env() == tx,
{
}

/// To complete a transaction fills in the chain where none is named, and moves the accounts of
/// chain 0 there. Nothing else changes.
pub proof fn law_completion_fills_in_the_chain(tx: &mut TxEnv, chain_id: u64)
    requires
        call_ensures(TxEnv::complete, (tx, chain_id), ()),
    ensures
        old(tx).chain_id is Some ==> *final(tx) == *old(tx),
        old(tx).chain_id is None ==> {
            &&& final(tx).chain_id == Some(chain_id)
            &&& final(tx).caller.1 == old(tx).caller.1
            &&& final(tx).caller.0 == if old(tx).caller.0 == 0 {
                chain_id
            } else {
                old(tx).caller.0
            }
            &&& (old(tx).kind is Create <==> final(tx).kind is Create)
            &&& old(tx).kind matches TxKind::Call(from) ==> {
                &&& final(tx).kind matches TxKind::Call(to)
                &&& to.1 == from.1
                &&& to.0 == if from.0 == 0 {
                    chain_id
                } else {
                    from.0
                }
            }
        },
        final(tx).tx_type == old(tx).tx_type && final(tx).nonce == old(tx).nonce,
        final(tx).gas_limit == old(tx).gas_limit && final(tx).gas_price == old(tx).gas_price,
        final(tx).value == old(tx).value && final(tx).data == old(tx).data,
        final(tx).chain_ids == old(tx).chain_ids,
        final(tx).access_list == old(tx).access_list,
        final(tx).gas_priority_fee == old(tx).gas_priority_fee,
        final(tx).blob_hashes == old(tx).blob_hashes,
        final(tx).max_fee_per_blob_gas == old(tx).max_fee_per_blob_gas,
        final(tx).authorization_list == old(tx).authorization_list,
{
}

/// The places of the rules are 0 to 19, each that of one set of rules, and later rules have later
/// places.
pub proof fn law_rules_are_in_order(one: SpecId, other: SpecId, place: u8, other_place: u8)
    requires
        call_ensures(SpecId::as_u8, (one,), place),
        call_ensures(SpecId::as_u8, (other,), other_place),
    ensures
        place <= 19,
        place == other_place <==> one == other,
        place == 0 <==> one == SpecId::Frontier,
        place == 1 <==> one == SpecId::FrontierThawing,
        place == 2 <==> one == SpecId::Homestead,
        place == 3 <==> one == SpecId::DaoFork,
        place == 4 <==> one == SpecId::Tangerine,
        place == 5 <==> one == SpecId::SpuriousDragon,
        place == 6 <==> one == SpecId::Byzantium,
        place == 7 <==> one == SpecId::Constantinople,
        place == 8 <==> one == SpecId::Petersburg,
        place == 9 <==> one == SpecId::Istanbul,
        place == 10 <==> one == SpecId::MuirGlacier,
        place == 11 <==> one == SpecId::Berlin,
        place == 12 <==> one == SpecId::London,
        place == 13 <==> one == SpecId::ArrowGlacier,
        place == 14 <==> one == SpecId::GrayGlacier,
        place == 15 <==> one == SpecId::Merge,
        place == 16 <==> one == SpecId::Shanghai,
        place == 17 <==> one == SpecId::Cancun,
        place == 18 <==> one == SpecId::Prague,
        place == 19 <==> one == SpecId::Osaka,
{
}

/// The default rules are those of Prague.
pub proof fn law_default_rules_are_prague(spec: SpecId)
    requires
        call_ensures(<SpecId as Default>::default, (), spec),
    ensures
        spec == SpecId::Prague,
{
}

/// Rules have the precompiled contracts of the last change that came no later, and the change is
/// at the first of the rules that have them.
pub proof fn law_rules_have_the_last_change(
    spec: SpecId,
    id: PrecompileSpecId,
    other: PrecompileSpecId,
    first: SpecId,
    other_first: SpecId,
)
    requires
        call_ensures(PrecompileSpecId::from_spec_id, (spec,), id),
        call_ensures(PrecompileSpecId::first_spec_id, (id,), first),
        call_ensures(PrecompileSpecId::first_spec_id, (other,), other_first),
    ensures
        first.index() <= spec.index(),
        other_first.index() <= spec.index() ==> other_first.index() <= first.index(),
        other == id <==> other_first == first,
        first == SpecId::Frontier || first == SpecId::Byzantium || first == SpecId::Istanbul
            || first == SpecId::Berlin || first == SpecId::Cancun || first == SpecId::Prague
            || first == SpecId::Osaka,
        id is Homestead <==> spec.index() <= 5,
        id is Byzantium <==> 6 <= spec.index() <= 8,
        id is Istanbul <==> 9 <= spec.index() <= 10,
        id is Berlin <==> 11 <= spec.index() <= 16,
        id is Cancun <==> spec == SpecId::Cancun,
        id is Prague <==> spec == SpecId::Prague,
        id is Osaka <==> spec == SpecId::Osaka,
{
}

/// The precompiled contracts of one chain stand at the addresses 1 to 4, from Byzantium on also 5
/// to 8, from Istanbul on 9, from Cancun on 10, from Prague on 11 to 17 and from Osaka on 256, and
/// nowhere else.
pub proof fn law_precompiles_stand_at_low_addresses(
    id: PrecompileSpecId,
    map: PrecompilesMap,
    address: Address,
    found: bool,
)
    requires
        call_ensures(PrecompilesMap::from_static, (id, false), map),
        call_ensures(PrecompilesMap::contains, (&map, &address), found),
    ensures
        (exists|i: int| 0 <= i < 18 && #[trigger] address@[i] != 0) ==> !found,
        (forall|i: int| 0 <= i < 18 ==> address@[i] == 0) ==> {
            let number = address@[18] * 256 + address@[19];
            &&& number == 0 ==> !found
            &&& 1 <= number <= 4 ==> found
            &&& 5 <= number <= 8 ==> (found <==> !(id is Homestead))
            &&& number == 9 ==> (found <==> !(id is Homestead) && !(id is Byzantium))
            &&& number == 10 ==> (found <==> id is Cancun || id is Prague || id is Osaka)
            &&& 11 <= number <= 17 ==> (found <==> id is Prague || id is Osaka)
            &&& number == 256 ==> (found <==> id is Osaka)
            &&& number > 17 && number != 256 ==> !found
        },
{
}

/// A set of precompiled contracts knows its rules, and whether it is for several chains.
pub proof fn law_precompiles_know_their_rules(
    id: PrecompileSpecId,
    xchain: bool,
    map: PrecompilesMap,
    known: PrecompileSpecId,
    several: bool,
)
    requires
        call_ensures(PrecompilesMap::from_static, (id, xchain), map),
        call_ensures(PrecompilesMap::spec_id, (&map,), known),
        call_ensures(PrecompilesMap::is_cross_chain, (&map,), several),
    ensures
        known == id,
        several == xchain,
        map.id() == id,
        map.xchain() == xchain,
{
}

/// A fork with a block, or with a block at which its difficulty is reached, is active from there
/// on, and no other is ever active at a block.
pub proof fn law_fork_is_active_from_its_block_on(
    condition: ForkCondition,
    number: u64,
    active: bool,
)
    requires
        call_ensures(ForkCondition::active_at_block, (&condition, number), active),
    ensures
        condition matches ForkCondition::Block(block) ==> (active <==> number >= block),
        condition matches ForkCondition::TTD { activation_block_number, .. } ==> (active
            <==> number >= activation_block_number),
        condition is Timestamp || condition is Never ==> !active,
{
}

/// Only a fork with a block has a transition, and it is at that block alone.
pub proof fn law_fork_has_one_transition(
    condition: ForkCondition,
    number: u64,
    transitions: bool,
)
    requires
        call_ensures(ForkCondition::transitions_at_block, (&condition, number), transitions),
    ensures
        condition matches ForkCondition::Block(block) ==> (transitions <==> number == block),
        !(condition is Block) ==> !transitions,
{
}

/// A fork with a time is active from there on, and no other is ever active at a time.
pub proof fn law_fork_is_active_from_its_time_on(
    condition: ForkCondition,
    timestamp: u64,
    active: bool,
)
    requires
        call_ensures(ForkCondition::active_at_timestamp, (&condition, timestamp), active),
    ensures
        condition matches ForkCondition::Timestamp(time) ==> (active <==> timestamp >= time),
        !(condition is Timestamp) ==> !active,
{
}

/// A schedule answers by the condition of the fork that it is asked for.
pub proof fn law_schedule_answers_by_its_conditions<Spec: EthExecutorSpec>(
    spec: Spec,
    fork: EthereumHardfork,
    condition: ForkCondition,
    number: u64,
    spurious_dragon: bool,
    timestamp: u64,
    prague: bool,
)
    requires
        call_ensures(Spec::ethereum_fork_activation, (&spec, fork), condition),
        call_ensures(
            Spec::is_spurious_dragon_active_at_block,
            (&spec, number),
            spurious_dragon,
        ),
        call_ensures(Spec::is_prague_active_at_timestamp, (&spec, timestamp), prague),
    ensures
        condition == spec.activation(fork),
        match spec.activation(EthereumHardfork::SpuriousDragon) {
            ForkCondition::Block(block) => spurious_dragon == (number >= block),
            ForkCondition::TTD { activation_block_number, .. } => spurious_dragon == (number
                >= activation_block_number),
            _ => !spurious_dragon,
        },
        match spec.activation(EthereumHardfork::Prague) {
            ForkCondition::Timestamp(time) => prague == (timestamp >= time),
            _ => !prague,
        },
{
}

/// On mainnet Spurious Dragon is active from block 2675000 on, the DAO fork has its transition at
/// block 1920000, and Prague is active from the time 1746612311 on.
pub proof fn law_mainnet_has_its_forks(
    spec: EthSpec,
    number: u64,
    spurious_dragon: bool,
    dao: ForkCondition,
    transitions: bool,
    timestamp: u64,
    prague: bool,
)
    requires
        call_ensures(EthSpec::mainnet, (), spec),
        call_ensures(
            <EthSpec as EthExecutorSpec>::is_spurious_dragon_active_at_block,
            (&spec, number),
            spurious_dragon,
        ),
        call_ensures(
            <EthSpec as EthExecutorSpec>::ethereum_fork_activation,
            (&spec, EthereumHardfork::Dao),
            dao,
        ),
        call_ensures(ForkCondition::transitions_at_block, (&dao, number), transitions),
        call_ensures(
            <EthSpec as EthExecutorSpec>::is_prague_active_at_timestamp,
            (&spec, timestamp),
            prague,
        ),
    ensures
        spurious_dragon <==> number >= 2_675_000,
        transitions <==> number == 1_920_000,
        prague <==> timestamp >= 1_746_612_311,
{
}

/// A reference to a schedule answers as the schedule.
pub proof fn law_reference_is_the_schedule<Spec: EthExecutorSpec>(
    spec: Spec,
    fork: EthereumHardfork,
)
    ensures
        (&spec).activation(fork) == spec.activation(fork),
{
}

/// What amounts add up to, one after the other.
pub open spec fn added_up(amounts: Seq<u128>) -> int {
    amounts.fold_left(0int, |total: int, amount: u128| total + amount)
}

/// The sum of a list is what its amounts add up to, one after the other, which is never negative.
pub proof fn law_sum_adds_all_amounts(amounts: Seq<u128>)
    ensures
        balances::sum(amounts) == added_up(amounts),
        added_up(amounts) >= 0,
    decreases amounts.len(),
{
    if amounts.len() > 0 {
        law_sum_adds_all_amounts(amounts.drop_last());
    }
}

/// A checked sum is the sum of all amounts, and is given wherever that fits.
pub proof fn law_checked_sum_is_the_sum(amounts: Vec<u128>, total: Option<u128>)
    requires
        call_ensures(checked_sum, (&amounts,), total),
    ensures
        ({
            let sum = added_up(amounts@);
            &&& sum <= u128::MAX ==> total == Some(sum as u128)
            &&& sum > u128::MAX ==> total is None
        }),
{
    law_sum_adds_all_amounts(amounts@);
}

/// To add an amount for an address changes the amount of that address alone, by as much.
pub proof fn law_adding_changes_one_amount(
    increments: &mut BalanceIncrements,
    address: Address,
    amount: u128,
    other: Address,
    before: Option<u128>,
    after: Option<u128>,
    fits: bool,
)
    requires
        call_ensures(BalanceIncrements::get, (&*old(increments), &other), before),
        call_ensures(BalanceIncrements::can_add, (&*old(increments), &address, amount), fits),
        fits,
        call_ensures(BalanceIncrements::add, (increments, address, amount), ()),
        call_ensures(BalanceIncrements::get, (&*final(increments), &other), after),
    ensures
        other != address ==> after == before,
        other == address ==> after == Some(
            (amount + match before {
                Some(present) => present as int,
                None => 0int,
            }) as u128,
        ),
        other == address ==> amount + (match before {
            Some(present) => present as int,
            None => 0int,
        }) <= u128::MAX,
        final(increments).total() == old(increments).total() + amount,
{
}

/// An amount can be added where the sum fits, and only there.
pub proof fn law_amount_fits_where_the_sum_does(
    increments: BalanceIncrements,
    address: Address,
    amount: u128,
    present: Option<u128>,
    fits: bool,
)
    requires
        call_ensures(BalanceIncrements::get, (&increments, &address), present),
        call_ensures(BalanceIncrements::can_add, (&increments, &address, amount), fits),
    ensures
        present is None ==> fits,
        present matches Some(a) ==> (fits <==> a + amount <= u128::MAX),
{
}

/// There are no increments at first.
pub proof fn law_no_increments_at_first(
    increments: BalanceIncrements,
    address: Address,
    amount: Option<u128>,
)
    requires
        call_ensures(BalanceIncrements::new, (), increments),
        call_ensures(BalanceIncrements::get, (&increments, &address), amount),
    ensures
        amount is None,
        increments.total() == 0,
{
}

/// Each amount is listed once, for the account of its address on the chain, nothing else is
/// listed, and the list adds up to the total.
pub proof fn law_each_amount_is_listed_once(
    increments: BalanceIncrements,
    chain_id: u64,
    list: Vec<(ChainAddress, u128)>,
    address: Address,
    amount: Option<u128>,
)
    requires
        call_ensures(BalanceIncrements::on_chain, (&increments, chain_id), list),
        call_ensures(BalanceIncrements::get, (&increments, &address), amount),
    ensures
        amount matches Some(a) ==> list@.contains((ChainAddress(chain_id, address), a)),
        forall|i: int|
            0 <= i < list@.len() ==> (#[trigger] list@[i]).0.0 == chain_id && (list@[i].0.1
                == address ==> amount == Some(list@[i].1)),
        forall|i: int, j: int|
            0 <= i < j < list@.len() ==> (#[trigger] list@[i]).0 != (#[trigger] list@[j]).0,
        added_up(list@.map_values(|entry: (ChainAddress, u128)| entry.1)) == increments.total(),
{
    law_sum_adds_all_amounts(list@.map_values(|entry: (ChainAddress, u128)| entry.1));
    assert forall|i: int, j: int| 0 <= i < j < list@.len() implies (#[trigger] list@[i]).0 != (
    #[trigger] list@[j]).0 by {
        if list@[i].0 == list@[j].0 {
            assert(list@[i].1 == increments@[list@[i].0.1]);
            assert(list@[j].1 == increments@[list@[j].0.1]);
            assert(list@[i] == list@[j]);
        }
    }
}

/// The gas of the entries of a list that are those of the chain `chain_id`, added one after the
/// other.
pub open spec fn entries_of(list: Seq<(u64, u64)>, chain_id: u64) -> int {
    list.fold_left(
        0int,
        |total: int, entry: (u64, u64)|
            if entry.0 == chain_id {
                total + entry.1
            } else {
                total
            },
    )
}

/// The gas that a list gives for a chain is what is left when the entries of that chain are added
/// one after the other.
pub proof fn law_listed_gas_is_the_sum_of_the_entries(list: Seq<(u64, u64)>, chain_id: u64)
    ensures
        gas::listed(list, chain_id) == entries_of(list, chain_id),
    decreases list.len(),
{
    if list.len() > 0 {
        law_listed_gas_is_the_sum_of_the_entries(list.drop_last(), chain_id);
    }
}

/// To count a list adds the entries of each chain to its counter, which starts at 0. A chain has a
/// counter afterwards where it had one or the list has an entry for it.
pub proof fn law_counting_adds_to_each_counter(
    counters: &mut HashMap<u64, u64>,
    list: Vec<(u64, u64)>,
    chain_id: u64,
    fits: bool,
)
    requires
        call_ensures(gas_fits, (&*old(counters), &list), fits),
        fits,
        call_ensures(count_gas, (counters, &list), ()),
    ensures
        final(counters)@.contains_key(chain_id) <==> old(counters)@.contains_key(chain_id)
            || exists|i: int| 0 <= i < list@.len() && (#[trigger] list@[i]).0 == chain_id,
        final(counters)@.contains_key(chain_id) ==> final(counters)@[chain_id] == (
        if old(counters)@.contains_key(chain_id) {
            old(counters)@[chain_id] as int
        } else {
            0int
        }) + entries_of(list@, chain_id),
{
    law_listed_gas_is_the_sum_of_the_entries(list@, chain_id);
    gas::lemma_listed_is_not_negative(list@, chain_id);
    assert(gas::counted(old(counters)@, chain_id) + gas::listed(list@, chain_id) <= u64::MAX);
    assert(gas::is_named(list@, chain_id) <==> exists|i: int|
        0 <= i < list@.len() && (#[trigger] list@[i]).0 == chain_id);
}

/// Gas fits where the sum for every chain does, and only there.
pub proof fn law_gas_fits_where_every_sum_does(
    counters: HashMap<u64, u64>,
    list: Vec<(u64, u64)>,
    fits: bool,
)
    requires
        call_ensures(gas_fits, (&counters, &list), fits),
    ensures
        fits <==> forall|chain_id: u64|
            (if #[trigger] counters@.contains_key(chain_id) {
                counters@[chain_id] as int
            } else {
                0int
            }) + entries_of(list@, chain_id) <= u64::MAX,
{
    assert forall|chain_id: u64| true implies #[trigger] gas::listed(list@, chain_id)
        == entries_of(list@, chain_id) by {
        law_listed_gas_is_the_sum_of_the_entries(list@, chain_id);
    }
    if fits {
        assert forall|chain_id: u64|
            (if #[trigger] counters@.contains_key(chain_id) {
                counters@[chain_id] as int
            } else {
                0int
            }) + entries_of(list@, chain_id) <= u64::MAX by {
            assert(gas::counted(counters@, chain_id) + gas::listed(list@, chain_id) <= u64::MAX);
        }
    } else {
        let chain_id = choose|chain_id: u64|
            gas::counted(counters@, chain_id) + #[trigger] gas::listed(list@, chain_id) > u64::MAX;
        assert(counters@.contains_key(chain_id) || !counters@.contains_key(chain_id));
    }
}

/// An execution was successful where it ended in success, and spent the gas that it says.
pub proof fn law_result_reports_its_parts<HaltReason>(
    result: ExecutionResult<HaltReason>,
    success: bool,
    gas: u64,
)
    requires
        call_ensures(ExecutionResult::<HaltReason>::is_success, (&result,), success),
        call_ensures(ExecutionResult::<HaltReason>::gas_used, (&result,), gas),
    ensures
        success <==> result.status is Success,
        gas == result.gas_used,
{
}

/// The changes are kept on a yes, and only there.
pub proof fn law_yes_commits(decision: CommitChanges, commit: bool)
    requires
        call_ensures(CommitChanges::should_commit, (decision,), commit),
    ensures
        commit <==> decision == CommitChanges::Yes,
{
}

/// An error of the machine carries the hash and the error, and an invalid block its reason.
pub proof fn law_errors_carry_their_cause<EvmError>(
    error: EvmError,
    hash: B256,
    wrapped: BlockExecutionError<EvmError>,
    reason: BlockValidationError,
    invalid: BlockExecutionError<EvmError>,
)
    requires
        call_ensures(BlockExecutionError::<EvmError>::evm, (error, hash), wrapped),
        call_ensures(
            <BlockExecutionError<EvmError> as From<BlockValidationError>>::from,
            (reason,),
            invalid,
        ),
    ensures
        wrapped matches BlockExecutionError::Evm { hash: h, error: e } && h == hash && e == error,
        invalid matches BlockExecutionError::Validation(r) && r == reason,
{
}

} // verus!
