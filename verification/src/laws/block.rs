//! Laws of the execution of a block.

use std::collections::HashMap;

use alloy_eips::eip7685::Requests;

use vstd::prelude::*;

use crate::error::{BlockExecutionError, BlockValidationError};
use crate::eth::block::{
    BlockExecutionResult, BlockTotals, CommitChanges, EthBlockExecutionCtx, EthBlockExecutor,
    EthBlockExecutorFactory, ExecutableTx, PreExecutionRun, PreExecutionStep,
};
use crate::eth::hook::{OnStateHook, ReportedState, StateChangeSource};
use crate::eth::receipts::{ReceiptBuilder, ReceiptBuilderCtx};
use crate::eth::{gas, EthEvm, EthEvmFactory};
use crate::evm::{Evm, MultiDatabase, MultiDatabaseCommit, NoOpInspector, Transact};
use crate::hardforks::{EthExecutorSpec, EthereumHardfork, ForkCondition};
use crate::laws::values;
use crate::result::{ExecutionResult, ResultAndState};
use crate::tx::IntoTxEnv;

verus! {

broadcast use vstd::std_specs::hash::group_hash_axioms;

/// What a counter holds, 0 where there is none.
pub open spec fn held(counters: Map<u64, u64>, chain_id: u64) -> int {
    if counters.contains_key(chain_id) {
        counters[chain_id] as int
    } else {
        0
    }
}

/// Whether the gas of a block and the gas of a result add up to a number of 64 bits, over all
/// chains and for each chain.
pub open spec fn sums_fit<Receipt, StateChanges, HaltReason>(
    totals: BlockTotals<Receipt, StateChanges>,
    result: ExecutionResult<HaltReason>,
) -> bool {
    &&& totals.gas_used + result.gas_used <= u64::MAX
    &&& forall|chain_id: u64| #[trigger]
        held(totals.gas_used_per_chain, chain_id) + values::entries_of(
            result.gas_used_per_chain@,
            chain_id,
        ) <= u64::MAX
}

/// There is room for a result where the sums fit, and only there.
pub proof fn law_there_is_room_where_the_sums_fit<'a, E: Evm, Spec, R: ReceiptBuilder<E>, H>(
    executor: EthBlockExecutor<'a, E, Spec, R, H>,
    result: ExecutionResult<E::HaltReason>,
    room: bool,
)
    requires
        call_ensures(
            EthBlockExecutor::<'a, E, Spec, R, H>::has_room,
            (&executor, &result),
            room,
        ),
    ensures
        room <==> sums_fit(executor.totals(), result),
        room <==> executor.totals().has_room(result),
{
    lemma_room(executor.totals(), result);
}

/// Totals have room for a result where the sums fit.
proof fn lemma_room<Receipt, StateChanges, HaltReason>(
    totals: BlockTotals<Receipt, StateChanges>,
    result: ExecutionResult<HaltReason>,
)
    ensures
        totals.has_room(result) <==> sums_fit(totals, result),
{
    let counters = totals.gas_used_per_chain;
    let list = result.gas_used_per_chain@;
    assert forall|chain_id: u64| true implies #[trigger] gas::listed(list, chain_id)
        == values::entries_of(list, chain_id) by {
        values::law_listed_gas_is_the_sum_of_the_entries(list, chain_id);
    }
    if totals.has_room(result) {
        assert forall|chain_id: u64| #[trigger]
            held(counters, chain_id) + values::entries_of(list, chain_id) <= u64::MAX by {
            assert(gas::counted(counters, chain_id) + gas::listed(list, chain_id) <= u64::MAX);
        }
    }
    if sums_fit(totals, result) {
        assert forall|chain_id: u64|
            gas::counted(counters, chain_id) + #[trigger] gas::listed(list, chain_id)
                <= u64::MAX by {
            assert(held(counters, chain_id) + values::entries_of(list, chain_id) <= u64::MAX);
        }
    }
}

/// What a result adds to the totals of a block: one receipt and one entry of state changes at the
/// end, its gas, and its gas on each chain.
pub open spec fn adds_up<Receipt, StateChanges, HaltReason>(
    before: BlockTotals<Receipt, StateChanges>,
    result: ExecutionResult<HaltReason>,
    changes: StateChanges,
    receipt: Receipt,
    after: BlockTotals<Receipt, StateChanges>,
) -> bool {
    &&& after.gas_used == before.gas_used + result.gas_used
    &&& after.receipts == before.receipts.push(receipt)
    &&& after.state_changes == before.state_changes.push(changes)
    &&& forall|chain_id: u64| #[trigger]
        held(after.gas_used_per_chain, chain_id) == held(before.gas_used_per_chain, chain_id)
            + values::entries_of(result.gas_used_per_chain@, chain_id)
    &&& forall|chain_id: u64| #[trigger]
        after.gas_used_per_chain.contains_key(chain_id)
            <==> before.gas_used_per_chain.contains_key(chain_id) || exists|i: int|
            0 <= i < result.gas_used_per_chain@.len() && (
            #[trigger] result.gas_used_per_chain@[i]).0 == chain_id
}

/// A result for which there is room adds up.
proof fn lemma_adds_up<Receipt, StateChanges, HaltReason>(
    before: BlockTotals<Receipt, StateChanges>,
    result: ExecutionResult<HaltReason>,
    changes: StateChanges,
    receipt: Receipt,
)
    requires
        sums_fit(before, result),
    ensures
        adds_up(before, result, changes, receipt, before.after(result, changes, receipt)),
{
    let counters = before.gas_used_per_chain;
    let list = result.gas_used_per_chain@;
    let after = before.after(result, changes, receipt);
    lemma_room(before, result);
    assert forall|chain_id: u64| #[trigger] held(after.gas_used_per_chain, chain_id) == held(
        counters,
        chain_id,
    ) + values::entries_of(list, chain_id) by {
        values::law_listed_gas_is_the_sum_of_the_entries(list, chain_id);
        gas::lemma_listed_is_not_negative(list, chain_id);
        assert(gas::counted(counters, chain_id) + gas::listed(list, chain_id) <= u64::MAX);
        if !gas::is_named(list, chain_id) {
            gas::lemma_unnamed(list, chain_id);
        }
    }
    assert forall|chain_id: u64| #[trigger]
        after.gas_used_per_chain.contains_key(chain_id) <==> counters.contains_key(chain_id)
            || exists|i: int| 0 <= i < list.len() && (#[trigger] list[i]).0 == chain_id by {
        assert(gas::is_named(list, chain_id) <==> exists|i: int|
            0 <= i < list.len() && (#[trigger] list[i]).0 == chain_id);
    }
}

/// A new executor has what it was made of, no hook, no receipts and no gas.
pub proof fn law_executor_starts_empty<'a, E: Evm, Spec, R: ReceiptBuilder<E>, H>(
    evm: E,
    ctx: HashMap<u64, EthBlockExecutionCtx<'a>>,
    spec: Spec,
    receipt_builder: R,
    executor: EthBlockExecutor<'a, E, Spec, R, H>,
    hooked: bool,
)
    requires
        call_ensures(
            EthBlockExecutor::<'a, E, Spec, R, H>::new,
            (evm, ctx, spec, receipt_builder),
            executor,
        ),
        call_ensures(EthBlockExecutor::<'a, E, Spec, R, H>::has_hook, (&executor,), hooked),
    ensures
        executor.machine() == evm,
        executor.contexts() == ctx,
        executor.schedule() == spec,
        executor.builder() == receipt_builder,
        !hooked && executor.hook() is None,
        executor.totals().gas_used == 0,
        executor.totals().receipts.len() == 0,
        executor.totals().state_changes.len() == 0,
        forall|chain_id: u64| !#[trigger]
            executor.totals().gas_used_per_chain.contains_key(chain_id),
{
}

/// An executor shows its machine, its schedule, its receipts and the context of its own chain.
pub proof fn law_executor_shows_its_parts<'a, E: Evm, Spec, R: ReceiptBuilder<E>, H>(
    executor: EthBlockExecutor<'a, E, Spec, R, H>,
    evm: &E,
    spec: &Spec,
    receipts: &Vec<R::Receipt>,
    ctx: &EthBlockExecutionCtx<'a>,
    within: bool,
)
    requires
        call_ensures(EthBlockExecutor::<'a, E, Spec, R, H>::evm, (&executor,), evm),
        call_ensures(EthBlockExecutor::<'a, E, Spec, R, H>::spec, (&executor,), spec),
        call_ensures(EthBlockExecutor::<'a, E, Spec, R, H>::receipts, (&executor,), receipts),
        call_ensures(EthBlockExecutor::<'a, E, Spec, R, H>::chain_context, (&executor,), ctx),
        call_ensures(
            EthBlockExecutor::<'a, E, Spec, R, H>::is_within_gas_limit,
            (&executor,),
            within,
        ),
    ensures
        *evm == executor.machine(),
        *spec == executor.schedule(),
        receipts@ == executor.totals().receipts,
        *ctx == executor.contexts()@[executor.machine().env().cfg_env.chain_id],
        within <==> executor.totals().gas_used <= executor.machine().env().block().gas_limit,
        executor.available_gas() + executor.totals().gas_used
            == executor.machine().env().block().gas_limit,
{
}

/// The result of a block has the receipts, the gas and the state changes that it collected, and the
/// requests that it is given.
pub proof fn law_result_has_what_was_collected<'a, E: Evm, Spec, R: ReceiptBuilder<E>, H>(
    executor: EthBlockExecutor<'a, E, Spec, R, H>,
    requests: Requests,
    evm: E,
    result: BlockExecutionResult<R::Receipt, E::StateChanges>,
)
    requires
        executor.ends_with(requests, evm, result) || call_ensures(
            EthBlockExecutor::<'a, E, Spec, R, H>::into_result,
            (executor, requests),
            (evm, result),
        ),
    ensures
        evm == executor.machine(),
        result.requests == requests,
        result.receipts@ == executor.totals().receipts,
        result.gas_used == executor.totals().gas_used,
        result.state_changes@ == executor.totals().state_changes,
        result.gas_used_per_chain@ == executor.totals().gas_used_per_chain,
{
}

/// To set the hook changes the hook alone.
pub proof fn law_setting_the_hook_changes_the_hook<'a, E: Evm, Spec, R: ReceiptBuilder<E>, H>(
    executor: &mut EthBlockExecutor<'a, E, Spec, R, H>,
    hook: Option<H>,
    hooked: bool,
)
    requires
        call_ensures(EthBlockExecutor::<'a, E, Spec, R, H>::set_state_hook, (executor, hook), ()),
        call_ensures(
            EthBlockExecutor::<'a, E, Spec, R, H>::has_hook,
            (&*final(executor),),
            hooked,
        ),
    ensures
        final(executor).hook() == hook,
        hooked <==> hook is Some,
        final(executor).machine() == old(executor).machine(),
        final(executor).schedule() == old(executor).schedule(),
        final(executor).builder() == old(executor).builder(),
        final(executor).contexts() == old(executor).contexts(),
        final(executor).totals() == old(executor).totals(),
{
}

/// A report tells the hook, if there is one, of the state under its source, and changes nothing
/// else.
pub proof fn law_report_tells_the_hook<'a, E: Evm, Spec, R: ReceiptBuilder<E>, H>(
    executor: &mut EthBlockExecutor<'a, E, Spec, R, H>,
    source: StateChangeSource,
    state: E::State,
) where H: OnStateHook<E::State>
    requires
        call_ensures(
            EthBlockExecutor::<'a, E, Spec, R, H>::report,
            (executor, source, state),
            (),
        ),
    ensures
        final(executor).machine() == old(executor).machine(),
        final(executor).schedule() == old(executor).schedule(),
        final(executor).builder() == old(executor).builder(),
        final(executor).contexts() == old(executor).contexts(),
        final(executor).totals() == old(executor).totals(),
        old(executor).hook() is None ==> final(executor).hook() is None,
        old(executor).hook() matches Some(hook) ==> exists|told: &mut H|
            {
                &&& *told == hook
                &&& final(executor).hook() == Some(*final(told))
                &&& #[trigger] call_ensures(
                    <H as OnStateHook<E::State>>::on_state,
                    (told, source, &state),
                    (),
                )
            },
{
}

/// What is done to the machine of an executor is done to its machine alone.
pub proof fn law_borrowed_machine_is_that_of_the_executor<
    'a,
    E: Evm,
    Spec,
    R: ReceiptBuilder<E>,
    H,
>(executor: &mut EthBlockExecutor<'a, E, Spec, R, H>, evm: &mut E)
    requires
        call_ensures(EthBlockExecutor::<'a, E, Spec, R, H>::evm_mut, (executor,), evm),
    ensures
        *old(evm) == old(executor).machine(),
        final(executor).machine() == *final(evm),
        final(executor).schedule() == old(executor).schedule(),
        final(executor).builder() == old(executor).builder(),
        final(executor).contexts() == old(executor).contexts(),
        final(executor).hook() == old(executor).hook(),
        final(executor).totals() == old(executor).totals(),
{
}

/// What is kept has the same schedule, receipt builder, contexts, hook, receipts, gas and state
/// changes.
pub proof fn law_what_is_kept_is_the_same<'a, E: Evm, Spec, R: ReceiptBuilder<E>, H>(
    before: EthBlockExecutor<'a, E, Spec, R, H>,
    after: EthBlockExecutor<'a, E, Spec, R, H>,
)
    requires
        before.is_kept_by(after),
    ensures
        after.schedule() == before.schedule(),
        after.builder() == before.builder(),
        after.contexts() == before.contexts(),
        after.hook() == before.hook(),
        after.totals().gas_used == before.totals().gas_used,
        after.totals().receipts == before.totals().receipts,
        after.totals().state_changes == before.totals().state_changes,
        after.totals().gas_used_per_chain == before.totals().gas_used_per_chain,
{
}

/// A transaction for which the sums fit is taken in: it spends the gas of its result, its receipt
/// is made of it, its result, its state and the gas up to and with it, its totals add up, its state
/// is committed, and the hook is told of that state under the number of the transaction.
pub proof fn law_taking_in_adds_up<'a, E: Evm, Spec, R: ReceiptBuilder<E>, H>(
    executor: &mut EthBlockExecutor<'a, E, Spec, R, H>,
    tx: R::Transaction,
    executed: ResultAndState<E::HaltReason, E::State, E::StateChanges>,
    gas_used: u64,
) where E::DB: MultiDatabaseCommit<E::State>, H: OnStateHook<E::State>
    requires
        call_ensures(
            EthBlockExecutor::<'a, E, Spec, R, H>::commit_transaction,
            (executor, &tx, executed),
            gas_used,
        ),
        sums_fit(old(executor).totals(), executed.result),
        old(executor).totals().receipts.len() <= usize::MAX,
    ensures
        gas_used == executed.result.gas_used,
        final(executor).schedule() == old(executor).schedule(),
        final(executor).builder() == old(executor).builder(),
        final(executor).contexts() == old(executor).contexts(),
        final(executor).machine().env() == old(executor).machine().env(),
        final(executor).machine().precompiles() == old(executor).machine().precompiles(),
        final(executor).machine().inspector() == old(executor).machine().inspector(),
        exists|receipt: R::Receipt, cumulative: u64|
            {
                &&& cumulative == old(executor).totals().gas_used + executed.result.gas_used
                &&& #[trigger] call_ensures(
                    R::build_receipt,
                    (
                        &old(executor).builder(),
                        ReceiptBuilderCtx {
                            tx: &tx,
                            evm: &old(executor).machine(),
                            result: executed.result,
                            state: &executed.state,
                            cumulative_gas_used: cumulative,
                        },
                    ),
                    receipt,
                )
                &&& adds_up(
                    old(executor).totals(),
                    executed.result,
                    executed.state_changes,
                    receipt,
                    final(executor).totals(),
                )
            },
        exists|db: &mut E::DB|
            {
                &&& *db == old(executor).machine().db()
                &&& *final(db) == final(executor).machine().db()
                &&& #[trigger] call_ensures(
                    <E::DB as MultiDatabaseCommit<E::State>>::commit_multi,
                    (db, executed.state),
                    (),
                )
            },
        old(executor).hook() is None ==> final(executor).hook() is None,
        old(executor).hook() matches Some(hook) ==> exists|told: &mut H, number: usize|
            {
                &&& number == old(executor).totals().receipts.len()
                &&& *told == hook
                &&& final(executor).hook() == Some(*final(told))
                &&& #[trigger] call_ensures(
                    <H as OnStateHook<E::State>>::on_state,
                    (told, StateChangeSource::Transaction(number), &executed.state),
                    (),
                )
            },
{
    let before = old(executor).totals();
    let cumulative = (before.gas_used + executed.result.gas_used) as u64;
    let receipt = choose|receipt: R::Receipt|
        {
            &&& #[trigger] call_ensures(
                R::build_receipt,
                (
                    &old(executor).builder(),
                    ReceiptBuilderCtx {
                        tx: &tx,
                        evm: &old(executor).machine(),
                        result: executed.result,
                        state: &executed.state,
                        cumulative_gas_used: cumulative,
                    },
                ),
                receipt,
            )
            &&& final(executor).totals() == before.after(
                executed.result,
                executed.state_changes,
                receipt,
            )
        };
    lemma_adds_up(before, executed.result, executed.state_changes, receipt);
}

/// A transaction whose gas limit and the gas of the block together exceed the gas limit of the
/// block is refused with what it asks for and what is left, and nothing changes.
pub proof fn law_too_much_gas_is_refused<
    'a,
    't,
    E: Transact,
    Spec,
    R: ReceiptBuilder<E>,
    H,
    X: IntoTxEnv<E::Tx>,
    F: FnOnce(&ExecutionResult<E::HaltReason>) -> CommitChanges,
>(
    executor: &mut EthBlockExecutor<'a, E, Spec, R, H>,
    tx: ExecutableTx<'t, R::Transaction, X>,
    f: F,
    outcome: Result<Option<u64>, BlockExecutionError<E::Error>>,
) where E::DB: MultiDatabaseCommit<E::State>, H: OnStateHook<E::State>
    requires
        call_ensures(
            EthBlockExecutor::<
                'a,
                E,
                Spec,
                R,
                H,
            >::execute_transaction_with_commit_condition::<X, F>,
            (executor, tx, f),
            outcome,
        ),
        old(executor).totals().gas_used <= old(executor).machine().env().block().gas_limit,
        old(executor).totals().gas_used + tx.gas_limit
            > old(executor).machine().env().block().gas_limit,
    ensures
        *final(executor) == *old(executor),
        outcome matches Err(
            BlockExecutionError::Validation(
                BlockValidationError::TransactionGasLimitMoreThanAvailableBlockGas {
                    transaction_gas_limit,
                    block_available_gas,
                },
            ),
        ) && transaction_gas_limit == tx.gas_limit && block_available_gas
            == old(executor).machine().env().block().gas_limit - old(executor).totals().gas_used,
{
}

/// A transaction that was admitted, can only be executed with the outcome `done`, is to be kept and
/// for which the sums fit is taken in: its gas is returned, its totals add up, its receipt is made
/// of it, its state is committed and reported under its number.
pub proof fn law_admitted_transaction_is_taken_in<
    'a,
    't,
    E: Transact,
    Spec,
    R: ReceiptBuilder<E>,
    H,
    X: IntoTxEnv<E::Tx>,
    F: FnOnce(&ExecutionResult<E::HaltReason>) -> CommitChanges,
>(
    executor: &mut EthBlockExecutor<'a, E, Spec, R, H>,
    tx: ExecutableTx<'t, R::Transaction, X>,
    f: F,
    outcome: Result<Option<u64>, BlockExecutionError<E::Error>>,
    done: ResultAndState<E::HaltReason, E::State, E::StateChanges>,
) where E::DB: MultiDatabaseCommit<E::State>, H: OnStateHook<E::State>
    requires
        call_ensures(
            EthBlockExecutor::<
                'a,
                E,
                Spec,
                R,
                H,
            >::execute_transaction_with_commit_condition::<X, F>,
            (executor, tx, f),
            outcome,
        ),
        old(executor).totals().gas_used + tx.gas_limit
            <= old(executor).machine().env().block().gas_limit,
        forall|
            evm: &mut E,
            executed: Result<ResultAndState<E::HaltReason, E::State, E::StateChanges>, E::Error>,
        |
            *evm == old(executor).machine() && #[trigger] call_ensures(
                E::transact::<X>,
                (evm, tx.env),
                executed,
            ) ==> executed == Ok::<_, E::Error>(done),
        forall|decision: CommitChanges| #[trigger]
            call_ensures(f, (&done.result,), decision) ==> decision == CommitChanges::Yes,
        sums_fit(old(executor).totals(), done.result),
        old(executor).totals().receipts.len() <= usize::MAX,
    ensures
        outcome matches Ok(Some(gas_used)) && gas_used == done.result.gas_used,
        final(executor).schedule() == old(executor).schedule(),
        final(executor).builder() == old(executor).builder(),
        final(executor).contexts() == old(executor).contexts(),
        final(executor).machine().env() == old(executor).machine().env(),
        exists|evm: &mut E, receipt: R::Receipt, cumulative: u64|
            {
                &&& *evm == old(executor).machine()
                &&& #[trigger] call_ensures(E::transact::<X>, (evm, tx.env), Ok(done))
                &&& cumulative == old(executor).totals().gas_used + done.result.gas_used
                &&& #[trigger] call_ensures(
                    R::build_receipt,
                    (
                        &old(executor).builder(),
                        ReceiptBuilderCtx {
                            tx: tx.tx,
                            evm: final(evm),
                            result: done.result,
                            state: &done.state,
                            cumulative_gas_used: cumulative,
                        },
                    ),
                    receipt,
                )
                &&& adds_up(
                    old(executor).totals(),
                    done.result,
                    done.state_changes,
                    receipt,
                    final(executor).totals(),
                )
            },
        exists|db: &mut E::DB|
            {
                &&& *db == old(executor).machine().db()
                &&& *final(db) == final(executor).machine().db()
                &&& #[trigger] call_ensures(
                    <E::DB as MultiDatabaseCommit<E::State>>::commit_multi,
                    (db, done.state),
                    (),
                )
            },
        old(executor).hook() is None ==> final(executor).hook() is None,
        old(executor).hook() matches Some(hook) ==> exists|told: &mut H, number: usize|
            {
                &&& number == old(executor).totals().receipts.len()
                &&& *told == hook
                &&& final(executor).hook() == Some(*final(told))
                &&& #[trigger] call_ensures(
                    <H as OnStateHook<E::State>>::on_state,
                    (told, StateChangeSource::Transaction(number), &done.state),
                    (),
                )
            },
{
    let before = old(executor).totals();
    lemma_room(before, done.result);
    assert forall|receipt: R::Receipt| #[trigger]
        before.after(done.result, done.state_changes, receipt)
            == final(executor).totals() implies adds_up(
        before,
        done.result,
        done.state_changes,
        receipt,
        final(executor).totals(),
    ) by {
        lemma_adds_up(before, done.result, done.state_changes, receipt);
    }
}

/// A transaction that is not taken in leaves the block as it is, but for its machine. One that can
/// only fail fails with its hash and the error of the machine. One that was executed and is only
/// dropped gives none, and no transaction is said to overflow the counters while the sums fit.
pub proof fn law_other_transactions_leave_the_block<
    'a,
    't,
    E: Transact,
    Spec,
    R: ReceiptBuilder<E>,
    H,
    X: IntoTxEnv<E::Tx>,
    F: FnOnce(&ExecutionResult<E::HaltReason>) -> CommitChanges,
>(
    executor: &mut EthBlockExecutor<'a, E, Spec, R, H>,
    tx: ExecutableTx<'t, R::Transaction, X>,
    f: F,
    outcome: Result<Option<u64>, BlockExecutionError<E::Error>>,
) where E::DB: MultiDatabaseCommit<E::State>, H: OnStateHook<E::State>
    requires
        call_ensures(
            EthBlockExecutor::<
                'a,
                E,
                Spec,
                R,
                H,
            >::execute_transaction_with_commit_condition::<X, F>,
            (executor, tx, f),
            outcome,
        ),
        old(executor).totals().gas_used + tx.gas_limit
            <= old(executor).machine().env().block().gas_limit,
    ensures
        !(outcome matches Ok(Some(_))) ==> {
            &&& final(executor).totals() == old(executor).totals()
            &&& final(executor).schedule() == old(executor).schedule()
            &&& final(executor).builder() == old(executor).builder()
            &&& final(executor).contexts() == old(executor).contexts()
            &&& final(executor).hook() == old(executor).hook()
            &&& final(executor).machine().env() == old(executor).machine().env()
        },
        !(outcome matches Err(BlockExecutionError::Validation(_))),
        outcome matches Err(BlockExecutionError::Evm { hash, error }) ==> {
            &&& hash == tx.hash
            &&& exists|evm: &mut E|
                *evm == old(executor).machine() && #[trigger] call_ensures(
                    E::transact::<X>,
                    (evm, tx.env),
                    Err(error),
                )
        },
        outcome matches Err(BlockExecutionError::GasOverflow) ==> exists|
            evm: &mut E,
            done: ResultAndState<E::HaltReason, E::State, E::StateChanges>,
        |
            {
                &&& *evm == old(executor).machine()
                &&& #[trigger] call_ensures(E::transact::<X>, (evm, tx.env), Ok(done))
                &&& call_ensures(f, (&done.result,), CommitChanges::Yes)
                &&& !sums_fit(old(executor).totals(), done.result)
            },
        outcome matches Ok(None) ==> exists|
            evm: &mut E,
            done: ResultAndState<E::HaltReason, E::State, E::StateChanges>,
        |
            {
                &&& *evm == old(executor).machine()
                &&& #[trigger] call_ensures(E::transact::<X>, (evm, tx.env), Ok(done))
                &&& call_ensures(f, (&done.result,), CommitChanges::No)
            },
        outcome matches Ok(Some(gas_used)) ==> {
            &&& final(executor).totals().gas_used == old(executor).totals().gas_used + gas_used
            &&& final(executor).totals().receipts.len() == old(executor).totals().receipts.len() + 1
            &&& exists|
                evm: &mut E,
                done: ResultAndState<E::HaltReason, E::State, E::StateChanges>,
            |
                {
                    &&& *evm == old(executor).machine()
                    &&& #[trigger] call_ensures(E::transact::<X>, (evm, tx.env), Ok(done))
                    &&& call_ensures(f, (&done.result,), CommitChanges::Yes)
                    &&& done.result.gas_used == gas_used
                }
        },
{
    assert forall|done: ResultAndState<E::HaltReason, E::State, E::StateChanges>| #[trigger]
        old(executor).totals().has_room(done.result) <==> sums_fit(
            old(executor).totals(),
            done.result,
        ) by {
        lemma_room(old(executor).totals(), done.result);
    }
    let (evm, executed) = choose|
        evm: &mut E,
        executed: Result<ResultAndState<E::HaltReason, E::State, E::StateChanges>, E::Error>,
    |
        {
            &&& *evm == old(executor).machine()
            &&& #[trigger] call_ensures(E::transact::<X>, (evm, tx.env), executed)
            &&& executed matches Err(error) ==> outcome == Err::<Option<u64>, _>(
                BlockExecutionError::Evm { hash: tx.hash, error },
            )
            &&& executed is Ok ==> !(outcome matches Err(BlockExecutionError::Evm { .. }))
        };
    if let Err(BlockExecutionError::Evm { hash, error }) = outcome {
        assert(hash == tx.hash);
        assert(call_ensures(E::transact::<X>, (evm, tx.env), Err(error)));
    }
}

/// The steps before the transactions are the flag, and then for each chain with a context one call
/// for block hashes with its parent hash and, right behind it, one for beacon roots with its root.
/// The flag is that of Spurious Dragon: set from its block on.
pub proof fn law_steps_come_chain_by_chain<
    'a,
    E: Evm,
    Spec: EthExecutorSpec,
    R: ReceiptBuilder<E>,
    H,
>(executor: EthBlockExecutor<'a, E, Spec, R, H>, run: PreExecutionRun)
    requires
        call_ensures(
            EthBlockExecutor::<'a, E, Spec, R, H>::apply_pre_execution_changes,
            (&executor,),
            run,
        ),
    ensures
        run@.len() >= 1,
        run@[0] matches PreExecutionStep::StateClearFlag(clear) && match executor.schedule(

        ).activation(EthereumHardfork::SpuriousDragon) {
            ForkCondition::Block(block) => clear
                == (executor.machine().env().block().number@ >= block),
            ForkCondition::TTD { activation_block_number, .. } => clear
                == (executor.machine().env().block().number@ >= activation_block_number),
            _ => !clear,
        },
        exists|order: Seq<u64>|
            {
                &&& run@.len() == 1 + 2 * order.len()
                &&& forall|chain_id: u64| #[trigger]
                    order.contains(chain_id) <==> executor.contexts()@.contains_key(chain_id)
                &&& #[trigger] order.no_duplicates()
                &&& forall|i: int|
                    0 <= i < order.len() ==> {
                        &&& run@[1 + 2 * i] == PreExecutionStep::Blockhashes {
                            chain_id: #[trigger] order[i],
                            parent_hash: executor.contexts()@[order[i]].parent_hash,
                        }
                        &&& run@[2 + 2 * i] == PreExecutionStep::BeaconRoot {
                            chain_id: order[i],
                            parent_beacon_block_root: executor.contexts()@[
                                order[i]
                            ].parent_beacon_block_root,
                        }
                    }
            },
{
    let order = choose|order: Seq<u64>|
        {
            &&& order.no_duplicates()
            &&& order.to_set() == executor.contexts()@.dom()
            &&& run@ == #[trigger] crate::eth::block::pre_execution_steps(
                executor.clears_state(),
                order,
                executor.contexts()@,
            )
        };
    assert forall|chain_id: u64| #[trigger]
        order.contains(chain_id) <==> executor.contexts()@.contains_key(chain_id) by {
        assert(order.to_set().contains(chain_id) <==> order.contains(chain_id));
    }
    assert forall|i: int| 0 <= i < order.len() implies {
        &&& run@[1 + 2 * i] == PreExecutionStep::Blockhashes {
            chain_id: #[trigger] order[i],
            parent_hash: executor.contexts()@[order[i]].parent_hash,
        }
        &&& run@[2 + 2 * i] == PreExecutionStep::BeaconRoot {
            chain_id: order[i],
            parent_beacon_block_root: executor.contexts()@[order[i]].parent_beacon_block_root,
        }
    } by {
        assert((1 + 2 * i - 1) / 2 == i);
        assert((2 + 2 * i - 1) / 2 == i);
        assert((1 + 2 * i) % 2 == 1);
        assert((2 + 2 * i) % 2 == 0);
    }
}

/// A run gives out its steps from the first to the last, ends at the first error, and never gives a
/// step out again.
pub proof fn law_run_gives_its_steps_in_order<Error>(
    run: PreExecutionRun,
    step: Option<PreExecutionStep>,
    outcome: Result<(), Error>,
    rest: Result<PreExecutionRun, Error>,
    next: Option<PreExecutionStep>,
)
    requires
        run@.len() > 0,
        call_ensures(PreExecutionRun::next_step, (&run,), step),
        call_ensures(PreExecutionRun::taken::<Error>, (run, outcome), rest),
        rest matches Ok(left) ==> call_ensures(PreExecutionRun::next_step, (&left,), next),
    ensures
        step == Some(run@[0]),
        outcome matches Err(error) ==> rest == Err::<PreExecutionRun, Error>(error),
        outcome is Ok ==> {
            &&& rest is Ok
            &&& rest->Ok_0@.len() == run@.len() - 1
            &&& forall|i: int| 0 <= i < run@.len() - 1 ==> #[trigger] rest->Ok_0@[i] == run@[i + 1]
            &&& run@.len() > 1 ==> next == Some(run@[1])
            &&& run@.len() == 1 ==> next is None
        },
{
}

/// A factory lends the parts that it was made of to its executors, and these start empty.
pub proof fn law_factory_lends_its_parts<
    'a,
    DB: MultiDatabase,
    R: ReceiptBuilder<EthEvm<DB, NoOpInspector>>,
    Spec,
    H,
>(
    receipt_builder: R,
    spec: Spec,
    factory: EthBlockExecutorFactory<R, Spec>,
    shown_builder: &R,
    shown_spec: &Spec,
    shown_factory: &EthEvmFactory,
    evm: EthEvm<DB, NoOpInspector>,
    ctx: HashMap<u64, EthBlockExecutionCtx<'a>>,
    executor: EthBlockExecutor<'a, EthEvm<DB, NoOpInspector>, &'a Spec, &'a R, H>,
)
    requires
        call_ensures(
            EthBlockExecutorFactory::<R, Spec>::new,
            (receipt_builder, spec),
            factory,
        ),
        call_ensures(
            EthBlockExecutorFactory::<R, Spec>::receipt_builder,
            (&factory,),
            shown_builder,
        ),
        call_ensures(EthBlockExecutorFactory::<R, Spec>::spec, (&factory,), shown_spec),
        call_ensures(EthBlockExecutorFactory::<R, Spec>::evm_factory, (&factory,), shown_factory),
        call_ensures(
            EthBlockExecutorFactory::<R, Spec>::create_executor::<DB, H>,
            (&factory, evm, ctx),
            executor,
        ),
    ensures
        *shown_builder == receipt_builder,
        *shown_spec == spec,
        *shown_factory == EthEvmFactory,
        executor.machine() == evm,
        executor.contexts() == ctx,
        *executor.schedule() == spec,
        *executor.builder() == receipt_builder,
        executor.hook() is None,
        executor.totals().gas_used == 0,
        executor.totals().receipts.len() == 0,
        executor.totals().state_changes.len() == 0,
{
}

/// A reference to a receipt builder makes the receipts of that builder.
pub proof fn law_reference_builds_the_same_receipts<E: Evm, B: ReceiptBuilder<E>>(
    builder: B,
    ctx: ReceiptBuilderCtx<'_, B::Transaction, E>,
    receipt: B::Receipt,
)
    requires
        call_ensures(<&B as ReceiptBuilder<E>>::build_receipt, (&&builder, ctx), receipt),
    ensures
        call_ensures(B::build_receipt, (&builder, ctx), receipt),
{
}

/// A reported state is the one that was reported, the hook was told of it under its source, and it
/// is what is committed.
pub proof fn law_reported_state_is_committed<
    State,
    H: OnStateHook<State>,
    DB: MultiDatabaseCommit<State>,
>(
    hook: &mut Option<H>,
    source: StateChangeSource,
    state: State,
    reported: ReportedState<State>,
    shown: &State,
    db: &mut DB,
)
    requires
        call_ensures(ReportedState::<State>::report::<H>, (hook, source, state), reported),
        call_ensures(ReportedState::<State>::get, (&reported,), shown),
        call_ensures(ReportedState::<State>::commit::<DB>, (reported, db), ()),
    ensures
        *shown == state,
        *old(hook) is None ==> *final(hook) is None,
        *old(hook) matches Some(before) ==> exists|told: &mut H|
            {
                &&& *told == before
                &&& *final(hook) == Some(*final(told))
                &&& #[trigger] call_ensures(
                    <H as OnStateHook<State>>::on_state,
                    (told, source, &state),
                    (),
                )
            },
        exists|committed: &mut DB|
            {
                &&& *committed == *old(db)
                &&& *final(committed) == *final(db)
                &&& #[trigger] call_ensures(
                    <DB as MultiDatabaseCommit<State>>::commit_multi,
                    (committed, state),
                    (),
                )
            },
{
}

} // verus!
