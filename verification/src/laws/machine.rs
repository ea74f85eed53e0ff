//! Laws of machines, their builder and their factories.

use std::collections::HashMap;

use revm::database_interface::EmptyDB;

use vstd::prelude::*;

use crate::empty::{self, compose, RawCall, SystemCallResult};
use crate::env::{BlockEnv, EvmEnv};
use crate::eth::{
    self, keep_account, EthEvm, EthEvmBuilder, EthEvmContext, EthEvmFactory, ExecuteEvm,
    MainnetEvm,
};
use crate::evm::{
    self, Evm, EvmFactory, MultiDatabase, MultiDatabaseCommit, NoOpInspector, Transact, TxTracer,
};
use crate::precompiles::{PrecompileSpecId, PrecompilesMap, SpecId};
use crate::primitives::{Address, ChainAddress};
use crate::result::{ExecutionResult, ExecutionStatus, ResultAndState};
use crate::tx::{IntoTxEnv, TxEnv, TxKind};

verus! {

broadcast use vstd::std_specs::hash::group_hash_axioms;

/// A machine that is built with an inspector has the database, the blocks and the configuration
/// that the builder was created with, that inspector, and invokes it as it was set last.
pub proof fn law_machine_has_what_it_was_built_of<DB: MultiDatabase, J>(
    db: DB,
    env: EvmEnv,
    first: EthEvmBuilder<DB, NoOpInspector>,
    inspector: J,
    second: EthEvmBuilder<DB, J>,
    inspect: bool,
    third: EthEvmBuilder<DB, J>,
    evm: EthEvm<DB, J, PrecompilesMap>,
)
    requires
        call_ensures(EthEvmBuilder::<DB, NoOpInspector>::new, (db, env), first),
        call_ensures(
            EthEvmBuilder::<DB, NoOpInspector>::inspector::<J>,
            (first, inspector),
            second,
        ),
        call_ensures(EthEvmBuilder::<DB, J>::set_inspect, (second, inspect), third),
        call_ensures(EthEvmBuilder::<DB, J>::build, (third,), evm),
    ensures
        evm.inner().ctx.db == db,
        evm.inner().ctx.block == env.block_env,
        evm.inner().ctx.cfg == env.cfg_env,
        evm.inner().inspector == inspector,
        evm.inspecting() == inspect,
        evm.inner().precompiles.id() == PrecompileSpecId::of(env.cfg_env.spec),
        evm.inner().precompiles.xchain() <==> env.block_env@.len() > 1,
{
}

/// A builder invokes no inspector until it is told so, and then does.
pub proof fn law_inspector_is_off_until_it_is_activated<DB: MultiDatabase, J>(
    db: DB,
    env: EvmEnv,
    first: EthEvmBuilder<DB, NoOpInspector>,
    off: EthEvm<DB, NoOpInspector, PrecompilesMap>,
    inspected: EthEvmBuilder<DB, NoOpInspector>,
    on: EthEvm<DB, NoOpInspector, PrecompilesMap>,
    inspector: J,
    second: EthEvmBuilder<DB, J>,
    active: EthEvm<DB, J, PrecompilesMap>,
)
    requires
        call_ensures(EthEvmBuilder::<DB, NoOpInspector>::new, (db, env), first),
        call_ensures(EthEvmBuilder::<DB, NoOpInspector>::build, (first,), off),
        call_ensures(EthEvmBuilder::<DB, NoOpInspector>::inspect, (first,), inspected),
        call_ensures(EthEvmBuilder::<DB, NoOpInspector>::build, (inspected,), on),
        call_ensures(
            EthEvmBuilder::<DB, NoOpInspector>::activate_inspector::<J>,
            (first, inspector),
            second,
        ),
        call_ensures(EthEvmBuilder::<DB, J>::build, (second,), active),
    ensures
        !off.inspecting(),
        on.inspecting(),
        active.inspecting(),
        active.inner().inspector == inspector,
        active.inner().ctx.db == db && on.inner().ctx.db == db && off.inner().ctx.db == db,
        active.inner().ctx.block == env.block_env && active.inner().ctx.cfg == env.cfg_env,
{
}

/// A machine that is built without an inspector invokes none, whatever was set, and has what the
/// builder was created with.
pub proof fn law_machine_without_inspector_invokes_none<DB: MultiDatabase, J>(
    db: DB,
    env: EvmEnv,
    first: EthEvmBuilder<DB, NoOpInspector>,
    inspector: J,
    second: EthEvmBuilder<DB, J>,
    evm: EthEvm<DB, NoOpInspector, PrecompilesMap>,
)
    requires
        call_ensures(EthEvmBuilder::<DB, NoOpInspector>::new, (db, env), first),
        call_ensures(
            EthEvmBuilder::<DB, NoOpInspector>::activate_inspector::<J>,
            (first, inspector),
            second,
        ),
        call_ensures(EthEvmBuilder::<DB, J>::build_no_inspector, (second,), evm),
    ensures
        !evm.inspecting(),
        evm.inner().inspector == NoOpInspector,
        evm.inner().ctx.db == db,
        evm.inner().ctx.block == env.block_env,
        evm.inner().ctx.cfg == env.cfg_env,
        evm.inner().precompiles.id() == PrecompileSpecId::of(env.cfg_env.spec),
        evm.inner().precompiles.xchain() <==> env.block_env@.len() > 1,
{
}

/// Precompiled contracts that are given are those of the machine, whatever the rules are.
pub proof fn law_given_precompiles_are_kept<DB: MultiDatabase>(
    db: DB,
    env: EvmEnv,
    first: EthEvmBuilder<DB, NoOpInspector>,
    given: PrecompilesMap,
    second: EthEvmBuilder<DB, NoOpInspector>,
    evm: EthEvm<DB, NoOpInspector, PrecompilesMap>,
    plain: EthEvm<DB, NoOpInspector, PrecompilesMap>,
)
    requires
        call_ensures(EthEvmBuilder::<DB, NoOpInspector>::new, (db, env), first),
        call_ensures(EthEvmBuilder::<DB, NoOpInspector>::precompiles, (first, given), second),
        call_ensures(EthEvmBuilder::<DB, NoOpInspector>::build, (second,), evm),
        call_ensures(EthEvmBuilder::<DB, NoOpInspector>::build_no_inspector, (second,), plain),
    ensures
        evm.inner().precompiles == given && plain.inner().precompiles == given,
        evm.inner().ctx.db == db && plain.inner().ctx.db == db,
        evm.inner().ctx.block == env.block_env && plain.inner().ctx.block == env.block_env,
        evm.inner().ctx.cfg == env.cfg_env && plain.inner().ctx.cfg == env.cfg_env,
        !evm.inspecting() && !plain.inspecting(),
{
}

/// A description of a builder shows what it was given.
pub proof fn law_description_shows_what_was_given<DB: MultiDatabase, J>(
    db: DB,
    env: EvmEnv,
    first: EthEvmBuilder<DB, NoOpInspector>,
    inspector: J,
    second: EthEvmBuilder<DB, J>,
    shown: (&DB, &HashMap<u64, BlockEnv>, &J, bool, bool),
    given: PrecompilesMap,
    third: EthEvmBuilder<DB, J>,
    shown_then: (&DB, &HashMap<u64, BlockEnv>, &J, bool, bool),
)
    requires
        call_ensures(EthEvmBuilder::<DB, NoOpInspector>::new, (db, env), first),
        call_ensures(
            EthEvmBuilder::<DB, NoOpInspector>::inspector::<J>,
            (first, inspector),
            second,
        ),
        call_ensures(EthEvmBuilder::<DB, J>::described, (&second,), shown),
        call_ensures(EthEvmBuilder::<DB, J>::precompiles, (second, given), third),
        call_ensures(EthEvmBuilder::<DB, J>::described, (&third,), shown_then),
    ensures
        *shown.0 == db && *shown.1 == env.block_env && *shown.2 == inspector,
        !shown.3 && !shown.4,
        *shown_then.0 == db && *shown_then.1 == env.block_env && *shown_then.2 == inspector,
        !shown_then.3 && shown_then.4,
{
}

/// A machine wraps what it was made of, and gives it back.
pub proof fn law_machine_wraps_its_inner_machine<DB: MultiDatabase, I, P>(
    inner: MainnetEvm<DB, I, P>,
    inspect: bool,
    evm: EthEvm<DB, I, P>,
    given_back: MainnetEvm<DB, I, P>,
    ctx: &EthEvmContext<DB>,
    dereferenced: &EthEvmContext<DB>,
    blocks: &HashMap<u64, BlockEnv>,
    chain_id: u64,
    parts: (DB, EvmEnv),
    db: DB,
    env: EvmEnv,
)
    requires
        call_ensures(EthEvm::<DB, I, P>::new, (inner, inspect), evm),
        call_ensures(EthEvm::<DB, I, P>::into_inner, (evm,), given_back),
        call_ensures(EthEvm::<DB, I, P>::ctx, (&evm,), ctx),
        call_ensures(<EthEvm<DB, I, P> as core::ops::Deref>::deref, (&evm,), dereferenced),
        call_ensures(<EthEvm<DB, I, P> as Evm>::blocks, (&evm,), blocks),
        call_ensures(<EthEvm<DB, I, P> as Evm>::chain_id, (&evm,), chain_id),
        call_ensures(<EthEvm<DB, I, P> as Evm>::finish, (evm,), parts),
        call_ensures(<EthEvm<DB, I, P> as Evm>::into_db, (evm,), db),
        call_ensures(<EthEvm<DB, I, P> as Evm>::into_env, (evm,), env),
    ensures
        given_back == inner,
        *ctx == inner.ctx && *dereferenced == inner.ctx,
        *blocks == inner.ctx.block,
        chain_id == inner.ctx.cfg.chain_id,
        parts.0 == inner.ctx.db && db == inner.ctx.db,
        parts.1.cfg_env == inner.ctx.cfg && parts.1.block_env == inner.ctx.block,
        env == parts.1,
        evm.inspecting() == inspect,
        evm.inner() == inner,
        evm.env().cfg_env == inner.ctx.cfg && evm.env().block_env == inner.ctx.block,
        evm.db() == inner.ctx.db,
        evm.precompiles() == inner.precompiles,
        evm.inspector() == inner.inspector,
{
}

/// The block of a machine is that of its chain, or else that of chain 0.
pub proof fn law_machine_is_in_the_block_of_its_chain<DB: MultiDatabase, I, P>(
    evm: EthEvm<DB, I, P>,
    block: &BlockEnv,
)
    requires
        call_ensures(<EthEvm<DB, I, P> as Evm>::block, (&evm,), block),
    ensures
        evm.inner().ctx.block@.contains_key(evm.inner().ctx.cfg.chain_id) ==> *block
            == evm.inner().ctx.block@[evm.inner().ctx.cfg.chain_id],
        !evm.inner().ctx.block@.contains_key(evm.inner().ctx.cfg.chain_id) ==> *block
            == evm.inner().ctx.block@[0],
{
}

/// A part that is borrowed from a machine is what changes, and nothing else does.
pub proof fn law_borrowing_changes_one_part<DB: MultiDatabase, I, P>(
    evm: &mut EthEvm<DB, I, P>,
    db: &mut DB,
)
    requires
        call_ensures(<EthEvm<DB, I, P> as Evm>::db_mut, (evm,), db),
    ensures
        *old(db) == old(evm).inner().ctx.db,
        final(evm).inner().ctx.db == *final(db),
        final(evm).inner().ctx.block == old(evm).inner().ctx.block,
        final(evm).inner().ctx.cfg == old(evm).inner().ctx.cfg,
        final(evm).inner().ctx.tx == old(evm).inner().ctx.tx,
        final(evm).inner().inspector == old(evm).inner().inspector,
        final(evm).inner().precompiles == old(evm).inner().precompiles,
        final(evm).inspecting() == old(evm).inspecting(),
{
}

/// The precompiled contracts that are borrowed from a machine are what changes, and nothing else
/// does.
pub proof fn law_borrowing_precompiles_changes_them_alone<DB: MultiDatabase, I, P>(
    evm: &mut EthEvm<DB, I, P>,
    precompiles: &mut P,
)
    requires
        call_ensures(<EthEvm<DB, I, P> as Evm>::precompiles_mut, (evm,), precompiles),
    ensures
        *old(precompiles) == old(evm).inner().precompiles,
        final(evm).inner().precompiles == *final(precompiles),
        final(evm).inner().ctx == old(evm).inner().ctx,
        final(evm).inner().inspector == old(evm).inner().inspector,
        final(evm).inspecting() == old(evm).inspecting(),
{
}

/// The inspector that is borrowed from a machine is what changes, and nothing else does.
pub proof fn law_borrowing_the_inspector_changes_it_alone<DB: MultiDatabase, I, P>(
    evm: &mut EthEvm<DB, I, P>,
    inspector: &mut I,
)
    requires
        call_ensures(<EthEvm<DB, I, P> as Evm>::inspector_mut, (evm,), inspector),
    ensures
        *old(inspector) == old(evm).inner().inspector,
        final(evm).inner().inspector == *final(inspector),
        final(evm).inner().ctx == old(evm).inner().ctx,
        final(evm).inner().precompiles == old(evm).inner().precompiles,
        final(evm).inspecting() == old(evm).inspecting(),
{
}

/// The context that is borrowed from a machine, by its name or by dereference, is what changes, and
/// nothing else does.
pub proof fn law_borrowing_the_context_changes_it_alone<DB: MultiDatabase, I, P>(
    evm: &mut EthEvm<DB, I, P>,
    ctx: &mut EthEvmContext<DB>,
)
    requires
        call_ensures(EthEvm::<DB, I, P>::ctx_mut, (evm,), ctx) || call_ensures(
            <EthEvm<DB, I, P> as core::ops::DerefMut>::deref_mut,
            (evm,),
            ctx,
        ),
    ensures
        *old(ctx) == old(evm).inner().ctx,
        final(evm).inner().ctx == *final(ctx),
        final(evm).inner().inspector == old(evm).inner().inspector,
        final(evm).inner().precompiles == old(evm).inner().precompiles,
        final(evm).inspecting() == old(evm).inspecting(),
{
}

/// A machine knows the rules of its precompiled contracts.
pub proof fn law_machine_knows_its_precompile_rules<DB: MultiDatabase, I>(
    evm: EthEvm<DB, I, PrecompilesMap>,
    rules: PrecompileSpecId,
    known: PrecompileSpecId,
)
    requires
        call_ensures(EthEvm::<DB, I, PrecompilesMap>::precompile_rules, (&evm,), rules),
        call_ensures(PrecompilesMap::spec_id, (&evm.inner().precompiles,), known),
    ensures
        rules == known,
{
}

/// To prepare a transaction keeps every field but the chain, the accounts on chain 0 and the chains
/// that it can reach, which become all that have a block, each once. One that names its chain
/// keeps all else.
pub proof fn law_preparation_keeps_the_transaction<DB: MultiDatabase, I, P>(
    evm: EthEvm<DB, I, P>,
    tx: TxEnv,
    prepared: TxEnv,
)
    requires
        evm.prepares(tx, prepared) || call_ensures(
            <EthEvm<DB, I, P> as Evm>::prepare_transaction::<TxEnv>,
            (&evm, tx),
            prepared,
        ),
    ensures
        prepared.tx_type == tx.tx_type && prepared.nonce == tx.nonce,
        prepared.gas_limit == tx.gas_limit && prepared.gas_price == tx.gas_price,
        prepared.value == tx.value && prepared.data == tx.data,
        prepared.access_list == tx.access_list,
        prepared.gas_priority_fee == tx.gas_priority_fee,
        prepared.blob_hashes == tx.blob_hashes,
        prepared.max_fee_per_blob_gas == tx.max_fee_per_blob_gas,
        prepared.authorization_list == tx.authorization_list,
        prepared.caller.1 == tx.caller.1,
        prepared.kind is Create <==> tx.kind is Create,
        prepared.kind matches TxKind::Call(to) ==> tx.kind matches TxKind::Call(from) && to.1
            == from.1,
        tx.chain_id is Some ==> prepared.chain_id == tx.chain_id && prepared.caller == tx.caller
            && prepared.kind == tx.kind,
        tx.chain_id is None ==> {
            let chain_id = match evm.inner().ctx.cfg.parent_chain_id {
                Some(parent) => parent,
                None => evm.inner().ctx.cfg.chain_id,
            };
            &&& prepared.chain_id == Some(chain_id)
            &&& tx.caller.0 == 0 ==> prepared.caller.0 == chain_id
            &&& tx.caller.0 != 0 ==> prepared.caller == tx.caller
            &&& tx.kind matches TxKind::Call(from) ==> {
                &&& prepared.kind matches TxKind::Call(to)
                &&& from.0 == 0 ==> to.0 == chain_id
                &&& from.0 != 0 ==> to == from
            }
        },
        prepared.chain_ids is Some,
        forall|chain_id: u64|
            #[trigger] evm.inner().ctx.block@.contains_key(chain_id)
                <==> prepared.chain_ids->0@.contains(chain_id),
        forall|i: int, j: int|
            0 <= i < j < prepared.chain_ids->0@.len() ==> prepared.chain_ids->0@[i]
                != prepared.chain_ids->0@[j],
{
    assert(evm.prepares(tx, prepared));
    let chain_ids = prepared.chain_ids->0@;
    assert forall|chain_id: u64|
        chain_ids.contains(chain_id) <==> #[trigger] evm.inner().ctx.block@.contains_key(
            chain_id,
        ) by {
        assert(chain_ids.to_set().contains(chain_id) <==> chain_ids.contains(chain_id));
    }
}

/// A machine runs exactly the transaction that it is given, with the inspector where it is on and
/// without it where it is off, and keeps its blocks, its configuration, its database, its
/// precompiled contracts and, where it is off, its inspector.
pub proof fn law_machine_runs_the_transaction<DB: ExecuteEvm<I, P>, I, P>(
    evm: &mut EthEvm<DB, I, P>,
    tx: TxEnv,
    outcome: Result<ResultAndState<String, DB::State, DB::StateChanges>, DB::Error>,
)
    requires
        call_ensures(<EthEvm<DB, I, P> as Transact>::transact_raw, (evm, tx), outcome),
    ensures
        final(evm).inner().ctx.block == old(evm).inner().ctx.block,
        final(evm).inner().ctx.cfg == old(evm).inner().ctx.cfg,
        final(evm).inner().ctx.db == old(evm).inner().ctx.db,
        final(evm).inner().ctx.tx == tx,
        final(evm).inner().precompiles == old(evm).inner().precompiles,
        final(evm).inspecting() == old(evm).inspecting(),
        !old(evm).inspecting() ==> {
            &&& final(evm).inner().inspector == old(evm).inner().inspector
            &&& call_ensures(
                <DB as ExecuteEvm<I, P>>::transact,
                (
                    &EthEvmContext {
                            block: old(evm).inner().ctx.block,
                            tx,
                            cfg: old(evm).inner().ctx.cfg,
                            db: old(evm).inner().ctx.db,
                        },
                    &old(evm).inner().precompiles,
                ),
                outcome,
            )
        },
        old(evm).inspecting() ==> exists|inspector: &mut I|
            {
                &&& *inspector == old(evm).inner().inspector
                &&& *final(inspector) == final(evm).inner().inspector
                &&& #[trigger] call_ensures(
                    <DB as ExecuteEvm<I, P>>::inspect_tx,
                    (
                        &EthEvmContext {
                            block: old(evm).inner().ctx.block,
                            tx,
                            cfg: old(evm).inner().ctx.cfg,
                            db: old(evm).inner().ctx.db,
                        },
                        &old(evm).inner().precompiles,
                        inspector,
                    ),
                    outcome,
                )
            },
{
}

/// What goes through `transact` is prepared, and what comes of that is run as it is, with the
/// inspector where it is on and without it where it is off. The machine keeps its blocks, its
/// configuration, its database and its precompiled contracts.
pub proof fn law_transact_runs_what_it_was_given<DB: ExecuteEvm<I, P>, I, P, T: IntoTxEnv<TxEnv>>(
    evm: &mut EthEvm<DB, I, P>,
    tx: T,
    outcome: Result<ResultAndState<String, DB::State, DB::StateChanges>, DB::Error>,
)
    requires
        call_ensures(<EthEvm<DB, I, P> as Transact>::transact::<T>, (evm, tx), outcome),
    ensures
        final(evm).inner().ctx.block == old(evm).inner().ctx.block,
        final(evm).inner().ctx.cfg == old(evm).inner().ctx.cfg,
        final(evm).inner().ctx.db == old(evm).inner().ctx.db,
        final(evm).inner().precompiles == old(evm).inner().precompiles,
        final(evm).inspecting() == old(evm).inspecting(),
        old(evm).prepares(tx.tx_env(), final(evm).inner().ctx.tx),
        final(evm).inner().ctx.tx.value == tx.tx_env().value,
        final(evm).inner().ctx.tx.data == tx.tx_env().data,
        final(evm).inner().ctx.tx.gas_limit == tx.tx_env().gas_limit,
        final(evm).inner().ctx.tx.nonce == tx.tx_env().nonce,
        final(evm).inner().ctx.tx.caller.1 == tx.tx_env().caller.1,
        !old(evm).inspecting() ==> {
            &&& final(evm).inner().inspector == old(evm).inner().inspector
            &&& call_ensures(
                <DB as ExecuteEvm<I, P>>::transact,
                (&final(evm).inner().ctx, &old(evm).inner().precompiles),
                outcome,
            )
        },
        old(evm).inspecting() ==> exists|inspector: &mut I|
            {
                &&& *inspector == old(evm).inner().inspector
                &&& *final(inspector) == final(evm).inner().inspector
                &&& #[trigger] call_ensures(
                    <DB as ExecuteEvm<I, P>>::inspect_tx,
                    (&final(evm).inner().ctx, &old(evm).inner().precompiles, inspector),
                    outcome,
                )
            },
{
    let (run, prepared) = choose|run: &mut EthEvm<DB, I, P>, prepared: TxEnv|
        {
            &&& *run == *old(evm)
            &&& *final(run) == *final(evm)
            &&& old(evm).prepares(tx.tx_env(), prepared)
            &&& #[trigger] call_ensures(
                <EthEvm<DB, I, P> as Transact>::transact_raw,
                (run, prepared),
                outcome,
            )
        };
    assert(final(run).inner().ctx.tx == prepared);
    law_preparation_keeps_the_transaction(*old(evm), tx.tx_env(), prepared);
}

/// The accounts at an address are taken out of a list without any other, in their order and as
/// often as they stand there: what is taken out of two lists one behind the other is what is taken
/// out of each, and a single account is taken out where it stands at the address.
pub proof fn law_accounts_are_taken_out_one_by_one<Account>(
    first: Seq<(Address, Account)>,
    second: Seq<(Address, Account)>,
    account: (Address, Account),
    address: Address,
)
    ensures
        eth::accounts_at(first + second, address) == eth::accounts_at(first, address)
            + eth::accounts_at(second, address),
        account.0 == address ==> eth::accounts_at(seq![account], address) == seq![account],
        account.0 != address ==> eth::accounts_at(seq![account], address) == Seq::<
            (Address, Account),
        >::empty(),
        eth::accounts_at(Seq::<(Address, Account)>::empty(), address) == Seq::<
            (Address, Account),
        >::empty(),
{
    Seq::filter_distributes_over_add(first, second, eth::stands_at(address));
    reveal_with_fuel(Seq::filter, 2);
    assert(seq![account].drop_last() =~= Seq::empty());
    assert(seq![account].last() == account);
}

/// An account is kept where it stands at the address, and only there.
pub proof fn law_kept_accounts_stand_at_the_address<Account>(
    state: &mut Vec<(Address, Account)>,
    address: Address,
    account: (Address, Account),
)
    requires
        call_ensures(keep_account::<Account>, (state, &address), ()),
    ensures
        final(state)@.contains(account) <==> old(state)@.contains(account) && account.0 == address,
        final(state)@.len() <= old(state)@.len(),
        final(state)@ == eth::accounts_at(old(state)@, address),
{
    broadcast use {
        Seq::lemma_filter_pred,
        Seq::lemma_filter_contains,
        Seq::lemma_filter_len,
        Seq::lemma_filter_contains_rev,
    };

    let before = old(state)@;
    let is_kept = eth::stands_at::<Account>(address);
    assert(final(state)@ == before.filter(is_kept));
    if before.contains(account) && account.0 == address {
        let i = choose|i: int| 0 <= i < before.len() && before[i] == account;
        assert(is_kept(before[i]));
        assert(before.filter(is_kept).contains(before[i]));
    }
    if before.filter(is_kept).contains(account) {
        let i = choose|i: int|
            0 <= i < before.filter(is_kept).len() && before.filter(is_kept)[i] == account;
        assert(is_kept(before.filter(is_kept)[i]));
    }
}

/// A system call returns the result and the error of its run unchanged, hands the addresses and the
/// data to it as they are, and keeps of its state the accounts at the address of the contract and
/// no other. The machine stays as it is.
pub proof fn law_system_call_returns_the_result_of_its_run<DB: ExecuteEvm<I, P>, I, P>(
    evm: &mut EthEvm<DB, I, P>,
    caller: ChainAddress,
    contract: ChainAddress,
    data: Vec<u8>,
    outcome: Result<
        ResultAndState<String, Vec<(Address, DB::Account)>, DB::StateChanges>,
        DB::Error,
    >,
)
    requires
        call_ensures(
            <EthEvm<DB, I, P> as Transact>::transact_system_call,
            (evm, caller, contract, data),
            outcome,
        ),
    ensures
        *final(evm) == *old(evm),
        exists|
            reply: Result<
                ResultAndState<String, Vec<(Address, DB::Account)>, DB::StateChanges>,
                DB::Error,
            >,
        |
            {
                &&& #[trigger] call_ensures(
                    <DB as ExecuteEvm<I, P>>::system_call_with_caller,
                    (
                        &old(evm).inner().ctx,
                        &old(evm).inner().precompiles,
                        caller.1,
                        contract.1,
                        data,
                    ),
                    reply,
                )
                &&& (outcome is Ok <==> reply is Ok)
                &&& reply matches Err(error) ==> outcome == Err::<
                    ResultAndState<String, Vec<(Address, DB::Account)>, DB::StateChanges>,
                    DB::Error,
                >(error)
                &&& reply matches Ok(done) ==> {
                    &&& outcome->Ok_0.result == done.result
                    &&& (outcome->Ok_0.result.status is Success <==> done.result.status is Success)
                    &&& outcome->Ok_0.state_changes == done.state_changes
                    &&& forall|account: (Address, DB::Account)| #[trigger]
                        outcome->Ok_0.state@.contains(account) <==> done.state@.contains(account)
                            && account.0 == contract.1
                    &&& outcome->Ok_0.state@ == eth::accounts_at(done.state@, contract.1)
                }
            },
{
    broadcast use {
        Seq::lemma_filter_pred,
        Seq::lemma_filter_contains,
        Seq::lemma_filter_contains_rev,
    };

    let reply = choose|
        reply: Result<
            ResultAndState<String, Vec<(Address, DB::Account)>, DB::StateChanges>,
            DB::Error,
        >,
    |
        {
            &&& #[trigger] call_ensures(
                <DB as ExecuteEvm<I, P>>::system_call_with_caller,
                (
                    &old(evm).inner().ctx,
                    &old(evm).inner().precompiles,
                    caller.1,
                    contract.1,
                    data,
                ),
                reply,
            )
            &&& match reply {
                Err(error) => outcome matches Err(e) && e == error,
                Ok(done) => {
                    &&& outcome matches Ok(kept)
                    &&& kept.result == done.result
                    &&& kept.state_changes == done.state_changes
                    &&& kept.state@ == eth::accounts_at(done.state@, contract.1)
                },
            }
        };
    if let Ok(done) = reply {
        let is_kept = eth::stands_at::<DB::Account>(contract.1);
        let kept = done.state@.filter(is_kept);
        assert(outcome->Ok_0.state@ == kept);
        assert forall|account: (Address, DB::Account)| #[trigger] kept.contains(account)
            <==> done.state@.contains(account) && account.0 == contract.1 by {
            if done.state@.contains(account) && account.0 == contract.1 {
                let i = choose|i: int| 0 <= i < done.state@.len() && done.state@[i] == account;
                assert(is_kept(done.state@[i]));
                assert(kept.contains(done.state@[i]));
            }
            if kept.contains(account) {
                let i = choose|i: int| 0 <= i < kept.len() && kept[i] == account;
                assert(is_kept(kept[i]));
            }
        }
    }
}

/// What comes of a factory is what it makes of the database and the environment that it is given,
/// with an inspector or without one.
pub proof fn law_factory_gives_what_it_makes<DB, F: EvmFactory<DB>, J>(
    factory: F,
    db: DB,
    env: EvmEnv<F::Hardforks>,
    inspector: J,
    evm: F::Evm,
    plain: F::Evm,
)
    requires
        call_ensures(
            <F as EvmFactory<DB>>::create_evm::<J>,
            (&factory, db, env, inspector),
            evm,
        ),
        call_ensures(<F as EvmFactory<DB>>::create_evm_env, (&factory, db, env), plain),
    ensures
        factory.makes(db, env, evm),
        factory.makes(db, env, plain),
{
}

/// The factory makes a machine with the given database, blocks and configuration, without an
/// inspector, and with the precompiled contracts of the rules, for as many chains as there are.
pub proof fn law_factory_makes_what_it_is_given<DB: MultiDatabase>(
    db: DB,
    env: EvmEnv,
    made: EthEvm<DB, NoOpInspector>,
)
    requires
        <EthEvmFactory as EvmFactory<DB>>::makes(&EthEvmFactory, db, env, made),
    ensures
        made.inner().ctx.db == db,
        made.inner().ctx.block == env.block_env,
        made.inner().ctx.cfg == env.cfg_env,
        !made.inspecting(),
        made.inner().precompiles.id() == PrecompileSpecId::of(
            env.cfg_env.spec,
        ),
        made.inner().precompiles.xchain() <==> env.block_env@.len() > 1,
        made.inner().ctx.tx.value@ == 0 && made.inner().ctx.tx.data@.len() == 0,
{
}

/// Without a database the factory makes the same machine over the empty one.
pub proof fn law_factory_makes_machines_over_the_empty_database<J>(
    db: (),
    env: EvmEnv,
    inspector: J,
    evm: EthEvm<EmptyDB, NoOpInspector>,
    made: EthEvm<EmptyDB, NoOpInspector>,
)
    requires
        call_ensures(
            <EthEvmFactory as EvmFactory<()>>::create_evm::<J>,
            (&EthEvmFactory, db, env, inspector),
            evm,
        ),
        made == evm || EthEvmFactory.makes(db, env, made),
    ensures
        made.inner().ctx.block == env.block_env,
        made.inner().ctx.cfg == env.cfg_env,
        !made.inspecting(),
        made.inner().precompiles.id() == PrecompileSpecId::of(
            env.cfg_env.spec,
        ),
        made.inner().precompiles.xchain() <==> env.block_env@.len() > 1,
        made.inner().ctx.tx.value@ == 0 && made.inner().ctx.tx.data@.len() == 0,
        EthEvmFactory.makes(db, env, evm),
{
}

/// Machines that hold the same have the same blocks, configuration, database and precompiled
/// contracts.
pub proof fn law_same_machines_have_the_same_parts<E: Evm>(before: E, after: E)
    ensures
        evm::holds_the_same(before, after) <==> before.env().cfg_env == after.env().cfg_env
            && before.env().block_env == after.env().block_env && before.db() == after.db()
            && before.precompiles() == after.precompiles(),
{
}

/// A report is put together as it was given: a call that was stopped has its reason, and one that
/// was not has succeeded where the report says so and was reverted otherwise. Gas, output, accounts
/// and errors are kept.
pub proof fn law_report_is_kept(
    report: Result<RawCall, String>,
    result: Result<SystemCallResult, String>,
)
    requires
        call_ensures(compose, (report,), result),
    ensures
        report is Err <==> result is Err,
        report matches Err(error) ==> result->Err_0@ == error@,
        report matches Ok((success, halt, gas_used, output, state)) ==> {
            let call = result->Ok_0;
            &&& call.gas_used == gas_used
            &&& call.state == state
            &&& output matches Some(bytes) ==> call.output@ == bytes@
            &&& output is None ==> call.output@.len() == 0
            &&& halt matches Some(reason) ==> (call.status matches ExecutionStatus::Halt(r) && r@
                == reason@)
            &&& halt is None && success ==> call.status is Success
            &&& halt is None && !success ==> call.status is Revert
        },
{
    assert(empty::outcome_of(result) == empty::composed(empty::parts_of(report)));
}

/// On the empty database of one chain, a call of anything but a precompiled contract succeeds,
/// spends nothing, returns nothing and touches the contract alone. The machine stays as it is.
pub proof fn law_empty_accounts_answer_in_silence<I>(
    evm: &mut EthEvm<EmptyDB, I, PrecompilesMap>,
    caller: ChainAddress,
    contract: ChainAddress,
    data: Vec<u8>,
    result: Result<SystemCallResult, String>,
)
    requires
        call_ensures(
            EthEvm::<EmptyDB, I, PrecompilesMap>::transact_system_call,
            (evm, caller, contract, data),
            result,
        ),
    ensures
        *final(evm) == *old(evm),
        result matches Ok(call) ==> call.state@.len() == 1 && call.state@[0] == contract.1,
        !old(evm).inner().precompiles.xchain() && (exists|i: int|
            0 <= i < 18 && #[trigger] contract.1@[i] != 0) ==> {
            &&& result is Ok
            &&& result->Ok_0.status is Success
            &&& result->Ok_0.gas_used == 0
            &&& result->Ok_0.output@.len() == 0
        },
{
}

/// Two calls with the same addresses and data, on empty databases under the same rules for one
/// chain, end in the same way.
pub proof fn law_empty_accounts_answer_alike<I>(
    one: &mut EthEvm<EmptyDB, I, PrecompilesMap>,
    other: &mut EthEvm<EmptyDB, I, PrecompilesMap>,
    caller: ChainAddress,
    other_caller: ChainAddress,
    contract: ChainAddress,
    other_contract: ChainAddress,
    data: Vec<u8>,
    other_data: Vec<u8>,
    result: Result<SystemCallResult, String>,
    other_result: Result<SystemCallResult, String>,
)
    requires
        call_ensures(
            EthEvm::<EmptyDB, I, PrecompilesMap>::transact_system_call,
            (one, caller, contract, data),
            result,
        ),
        call_ensures(
            EthEvm::<EmptyDB, I, PrecompilesMap>::transact_system_call,
            (other, other_caller, other_contract, other_data),
            other_result,
        ),
        old(one).inner().ctx.cfg.spec == old(other).inner().ctx.cfg.spec,
        old(one).inner().precompiles.id() == old(other).inner().precompiles.id(),
        !old(one).inner().precompiles.xchain() && !old(other).inner().precompiles.xchain(),
        caller.1 == other_caller.1 && contract.1 == other_contract.1 && data@ == other_data@,
    ensures
        result is Ok <==> other_result is Ok,
        result is Ok ==> {
            &&& (result->Ok_0.status is Success <==> other_result->Ok_0.status is Success)
            &&& (result->Ok_0.status is Revert <==> other_result->Ok_0.status is Revert)
            &&& result->Ok_0.gas_used == other_result->Ok_0.gas_used
            &&& result->Ok_0.output@ == other_result->Ok_0.output@
        },
{
    assert(empty::outcome_of(result) == empty::outcome_of(other_result));
}

/// A call on the empty database of one chain is run under the rules of the machine and with its
/// precompiled contracts, by the caller, of the contract and with the data that it is given, and
/// what comes of the run is put together as it is.
pub proof fn law_empty_call_hands_its_arguments_over<I>(
    evm: &mut EthEvm<EmptyDB, I, PrecompilesMap>,
    caller: ChainAddress,
    contract: ChainAddress,
    data: Vec<u8>,
    result: Result<SystemCallResult, String>,
    rules: u8,
    first: SpecId,
    precompile_rules: u8,
)
    requires
        call_ensures(
            EthEvm::<EmptyDB, I, PrecompilesMap>::transact_system_call,
            (evm, caller, contract, data),
            result,
        ),
        !old(evm).inner().precompiles.xchain(),
        call_ensures(SpecId::as_u8, (old(evm).inner().ctx.cfg.spec,), rules),
        call_ensures(
            PrecompileSpecId::first_spec_id,
            (old(evm).inner().precompiles.id(),),
            first,
        ),
        call_ensures(SpecId::as_u8, (first,), precompile_rules),
    ensures
        match empty::system_call_outcome(
            rules,
            precompile_rules,
            caller.1@,
            contract.1@,
            data@,
        ) {
            Err(error) => result matches Err(e) && e@ == error,
            Ok((success, halt, gas_used, output)) => {
                &&& result matches Ok(call)
                &&& call.gas_used == gas_used
                &&& output matches Some(bytes) ==> call.output@ == bytes
                &&& output is None ==> call.output@.len() == 0
                &&& halt matches Some(reason) ==> (call.status matches ExecutionStatus::Halt(r)
                    && r@ == reason)
                &&& halt is None && success ==> call.status is Success
                &&& halt is None && !success ==> call.status is Revert
            },
        },
{
    let outcome = empty::outcome_of(result);
    assert(outcome == empty::composed(
        empty::system_call_outcome(rules, precompile_rules, caller.1@, contract.1@, data@),
    ));
}

/// A tracer has the machine that it was made of.
pub proof fn law_tracer_has_its_machine<E>(machine: E, tracer: TxTracer<E>)
    requires
        call_ensures(TxTracer::<E>::new, (machine,), tracer),
    ensures
        tracer.evm == machine,
{
}

/// Whether a machine goes on after a transaction with the result `result`: after a success, and
/// only then. The machine stays as it is.
pub fn goes_on_after<DB: ExecuteEvm<I, P>, I, P>(
    evm: &mut EthEvm<DB, I, P>,
    result: &ExecutionResult<String>,
) -> (go_on: bool)
    ensures
        go_on <==> result.status is Success,
        *final(evm) == *old(evm),
{
    evm.should_continue(result)
}

/// Executes a transaction and commits it: returns the result or the error of the execution as it
/// is, commits the state of the execution, and commits nothing where there is an error. The machine
/// keeps its blocks, its configuration and its precompiled contracts.
pub fn commits_what_was_executed<
    DB: ExecuteEvm<I, P> + MultiDatabaseCommit<<DB as MultiDatabase>::State>,
    I,
    P,
    T: IntoTxEnv<TxEnv>,
>(evm: &mut EthEvm<DB, I, P>, tx: T) -> (outcome: Result<ExecutionResult<String>, DB::Error>)
    ensures
        final(evm).inner().ctx.block == old(evm).inner().ctx.block,
        final(evm).inner().ctx.cfg == old(evm).inner().ctx.cfg,
        final(evm).inner().precompiles == old(evm).inner().precompiles,
        outcome is Err ==> final(evm).inner().ctx.db == old(evm).inner().ctx.db,
        exists|
            run: &mut EthEvm<DB, I, P>,
            executed: Result<ResultAndState<String, DB::State, DB::StateChanges>, DB::Error>,
        |
            {
                &&& *run == *old(evm)
                &&& #[trigger] call_ensures(
                    <EthEvm<DB, I, P> as Transact>::transact::<T>,
                    (run, tx),
                    executed,
                )
                &&& final(evm).inner().inspector == final(run).inner().inspector
                &&& executed matches Err(error) ==> (outcome matches Err(e) && e == error)
                &&& executed matches Ok(done) ==> {
                    &&& outcome matches Ok(result)
                    &&& result == done.result
                    &&& exists|db: &mut DB|
                        {
                            &&& *db == old(evm).inner().ctx.db
                            &&& *final(db) == final(evm).inner().ctx.db
                            &&& #[trigger] call_ensures(
                                <DB as MultiDatabaseCommit<
                                    <DB as MultiDatabase>::State,
                                >>::commit_multi,
                                (db, done.state),
                                (),
                            )
                        }
                }
            },
{
    evm.transact_commit(tx)
}

} // verus!
