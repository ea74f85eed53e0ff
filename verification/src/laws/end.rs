//! Laws of the end of a block.

use alloy_eips::eip7685::Requests;

use op_revm::OpSpecId;

use vstd::prelude::*;

use crate::balances::BalanceIncrements;
use crate::env::EvmEnv;
use crate::error::{BlockExecutionError, BlockValidationError};
use crate::eth::block::{BlockExecutionResult, EthBlockExecutor};
use crate::eth::finish::{
    AwaitingDeposits, AwaitingDrain, AwaitingIncrements, AwaitingPayout, AwaitingReport,
    AwaitingSystemCalls, DaoFork, DrainStep, ReportStep, RequestsStep,
};
use crate::eth::hook::{OnStateHook, StateChangePostBlockSource, StateChangeSource};
use crate::eth::receipts::ReceiptBuilder;
use crate::evm::{Evm, NoOpInspector};
use crate::hardforks::{EthExecutorSpec, EthereumHardfork, ForkCondition};
use crate::laws::{block, values};
use crate::op::{OpEvm, OpEvmFactory};
use crate::primitives::{Address, ChainAddress};
use crate::requests;

verus! {

/// Requests are collected in every block whose time is not before that of Prague, and in no other.
/// A block that collects none has none.
pub proof fn law_requests_are_collected_from_prague_on<
    'a,
    E: Evm,
    Spec: EthExecutorSpec,
    R: ReceiptBuilder<E>,
    H,
>(executor: EthBlockExecutor<'a, E, Spec, R, H>, step: RequestsStep<'a, E, Spec, R, H>)
    requires
        call_ensures(EthBlockExecutor::<'a, E, Spec, R, H>::finish, (executor,), step),
    ensures
        match executor.schedule().activation(EthereumHardfork::Prague) {
            ForkCondition::Timestamp(time) => {
                &&& step is Collect <==> executor.machine().env().block().timestamp@ >= time
                &&& executor.collects_requests()
                    <==> executor.machine().env().block().timestamp@ >= time
            },
            _ => step is Skip && !executor.collects_requests(),
        },
        match step {
            RequestsStep::Collect(next) => next.executor == executor,
            RequestsStep::Skip(next) => next.executor == executor && requests::requests_in(
                next.requests,
            ).len() == 0,
        },
{
}

/// Where a block collects requests, every later block under the same schedule does.
pub proof fn law_later_blocks_collect_requests<
    'a,
    E: Evm,
    Spec: EthExecutorSpec,
    R: ReceiptBuilder<E>,
    H,
>(
    earlier: EthBlockExecutor<'a, E, Spec, R, H>,
    earlier_step: RequestsStep<'a, E, Spec, R, H>,
    later: EthBlockExecutor<'a, E, Spec, R, H>,
    later_step: RequestsStep<'a, E, Spec, R, H>,
)
    requires
        call_ensures(EthBlockExecutor::<'a, E, Spec, R, H>::finish, (earlier,), earlier_step),
        call_ensures(EthBlockExecutor::<'a, E, Spec, R, H>::finish, (later,), later_step),
        earlier.schedule() == later.schedule(),
        earlier.machine().env().block().timestamp@ <= later.machine().env().block().timestamp@,
        earlier_step is Collect,
    ensures
        later_step is Collect,
{
    law_requests_are_collected_from_prague_on(earlier, earlier_step);
    law_requests_are_collected_from_prague_on(later, later_step);
}

/// The deposits become one request, which is the byte 0 and the deposits behind it, or none where
/// there are no deposits. What is wrong with them makes the block invalid.
pub proof fn law_deposits_become_one_request<'a, E: Evm, Spec, R: ReceiptBuilder<E>, H>(
    awaiting: AwaitingDeposits<'a, E, Spec, R, H>,
    deposits: Result<Vec<u8>, BlockValidationError>,
    next: Result<AwaitingSystemCalls<'a, E, Spec, R, H>, BlockExecutionError<E::Error>>,
)
    requires
        call_ensures(
            AwaitingDeposits::<'a, E, Spec, R, H>::deposits,
            (awaiting, deposits),
            next,
        ),
    ensures
        deposits matches Err(reason) ==> (next matches Err(BlockExecutionError::Validation(found))
            && found == reason),
        deposits matches Ok(bytes) ==> {
            &&& next matches Ok(after)
            &&& after.executor == awaiting.executor
            &&& bytes@.len() == 0 ==> requests::requests_in(after.requests).len() == 0
            &&& bytes@.len() > 0 ==> {
                let list = requests::requests_in(after.requests);
                &&& list.len() == 1
                &&& list[0].len() == 1 + bytes@.len()
                &&& list[0][0] == 0
                &&& forall|i: int| 0 <= i < bytes@.len() ==> list[0][1 + i] == #[trigger] bytes@[i]
            }
        },
{
}

/// The requests of the system contracts stand behind those that the block has, in their order, and
/// none is lost. An error of those calls is returned as it is.
pub proof fn law_system_requests_stand_behind<'a, E: Evm, Spec, R: ReceiptBuilder<E>, H>(
    awaiting: AwaitingSystemCalls<'a, E, Spec, R, H>,
    returned: Result<Requests, BlockExecutionError<E::Error>>,
    next: Result<AwaitingIncrements<'a, E, Spec, R, H>, BlockExecutionError<E::Error>>,
)
    requires
        call_ensures(
            AwaitingSystemCalls::<'a, E, Spec, R, H>::system_requests,
            (awaiting, returned),
            next,
        ),
    ensures
        returned matches Err(error) ==> (next matches Err(found) && found == error),
        returned matches Ok(more) ==> {
            let present = requests::requests_in(awaiting.requests);
            let added = requests::requests_in(more);
            &&& next matches Ok(after)
            &&& after.executor == awaiting.executor
            &&& requests::requests_in(after.requests).len() == present.len() + added.len()
            &&& forall|i: int|
                0 <= i < present.len() ==> requests::requests_in(after.requests)[i]
                    == #[trigger] present[i]
            &&& forall|i: int|
                0 <= i < added.len() ==> requests::requests_in(after.requests)[present.len() + i]
                    == #[trigger] added[i]
        },
{
}

/// The DAO fork drains its accounts in its first block and in no other, where all numbers that do
/// not fit in 64 bits count as the largest that does: one account for each address, in their order,
/// on the chain of the machine. What a block has so far is passed on.
pub proof fn law_accounts_are_drained_in_one_block<
    'a,
    E: Evm,
    Spec: EthExecutorSpec,
    R: ReceiptBuilder<E>,
    H,
>(
    awaiting: AwaitingIncrements<'a, E, Spec, R, H>,
    increments: BalanceIncrements,
    dao_fork: DaoFork,
    step: DrainStep<'a, E, Spec, R, H>,
)
    requires
        call_ensures(
            AwaitingIncrements::<'a, E, Spec, R, H>::balance_increments,
            (awaiting, increments, dao_fork),
            step,
        ),
    ensures
        match awaiting.executor.schedule().activation(EthereumHardfork::Dao) {
            ForkCondition::Block(first) => step is Drain <==> {
                let number = awaiting.executor.machine().env().block().number@;
                number == first || first == u64::MAX && number > first
            },
            _ => step is Skip,
        },
        step is Drain <==> awaiting.executor.drains_dao(),
        match step {
            DrainStep::Drain(next) => {
                &&& next.executor == awaiting.executor
                &&& next.requests == awaiting.requests
                &&& next.increments == increments
                &&& next.beneficiary == dao_fork.beneficiary
                &&& next.accounts@.len() == dao_fork.accounts@.len()
                &&& forall|i: int|
                    0 <= i < dao_fork.accounts@.len() ==> {
                        &&& (#[trigger] next.accounts@[i]).0
                            == awaiting.executor.machine().env().cfg_env.chain_id
                        &&& next.accounts@[i].1 == dao_fork.accounts@[i]
                    }
            },
            DrainStep::Skip(next) => {
                &&& next.executor == awaiting.executor
                &&& next.requests == awaiting.requests
                &&& next.increments == increments
            },
        },
{
}

/// All that was drained goes to the beneficiary, on top of what it gets anyway, and no other amount
/// changes. A failure of the draining makes the block invalid.
pub proof fn law_drained_balances_go_to_the_beneficiary<
    'a,
    E: Evm,
    Spec,
    R: ReceiptBuilder<E>,
    H,
    DbError,
>(
    awaiting: AwaitingDrain<'a, E, Spec, R, H>,
    balances: Result<Vec<u128>, DbError>,
    next: Result<AwaitingPayout<'a, E, Spec, R, H>, BlockExecutionError<E::Error>>,
    present: Option<u128>,
    address: Address,
    before: Option<u128>,
    after: Option<u128>,
)
    requires
        call_ensures(
            BalanceIncrements::get,
            (&awaiting.increments, &awaiting.beneficiary),
            present,
        ),
        balances matches Ok(b) ==> values::added_up(b@) + (match present {
            Some(amount) => amount as int,
            None => 0int,
        }) <= u128::MAX,
        call_ensures(
            AwaitingDrain::<'a, E, Spec, R, H>::drained::<DbError>,
            (awaiting, balances),
            next,
        ),
        call_ensures(BalanceIncrements::get, (&awaiting.increments, &address), before),
        next matches Ok(payout) ==> call_ensures(
            BalanceIncrements::get,
            (&payout.increments, &address),
            after,
        ),
    ensures
        balances is Err ==> next matches Err(
            BlockExecutionError::Validation(BlockValidationError::IncrementBalanceFailed),
        ),
        balances matches Ok(b) ==> {
            let drained = values::added_up(b@);
            &&& next matches Ok(payout)
            &&& payout.executor == awaiting.executor
            &&& payout.requests == awaiting.requests
            &&& address != awaiting.beneficiary ==> after == before
            &&& address == awaiting.beneficiary ==> {
                &&& after matches Some(amount)
                &&& amount == drained + (match before {
                    Some(given) => given as int,
                    None => 0int,
                })
            }
            &&& payout.increments.total() == awaiting.increments.total() + drained
        },
{
    if let Ok(b) = balances {
        values::law_sum_adds_all_amounts(b@);
    }
}

/// Each amount is paid once, to the account of its address on the chain of the machine, and nothing
/// else is paid.
pub proof fn law_each_amount_is_paid_once<'a, E: Evm, Spec, R: ReceiptBuilder<E>, H>(
    awaiting: AwaitingPayout<'a, E, Spec, R, H>,
    payouts: Vec<(ChainAddress, u128)>,
    address: Address,
    amount: Option<u128>,
)
    requires
        call_ensures(AwaitingPayout::<'a, E, Spec, R, H>::payouts, (&awaiting,), payouts),
        call_ensures(BalanceIncrements::get, (&awaiting.increments, &address), amount),
    ensures
        amount matches Some(a) ==> payouts@.contains(
            (ChainAddress(awaiting.executor.machine().env().cfg_env.chain_id, address), a),
        ),
        forall|i: int|
            0 <= i < payouts@.len() ==> {
                &&& (#[trigger] payouts@[i]).0.0
                    == awaiting.executor.machine().env().cfg_env.chain_id
                &&& payouts@[i].0.1 == address ==> amount == Some(payouts@[i].1)
            },
        forall|i: int, j: int|
            0 <= i < j < payouts@.len() ==> (#[trigger] payouts@[i]).0
                != (#[trigger] payouts@[j]).0,
        values::added_up(payouts@.map_values(|payout: (ChainAddress, u128)| payout.1))
            == awaiting.increments.total(),
{
    values::law_sum_adds_all_amounts(payouts@.map_values(|payout: (ChainAddress, u128)| payout.1));
    assert forall|i: int, j: int| 0 <= i < j < payouts@.len() implies (#[trigger] payouts@[i]).0
        != (#[trigger] payouts@[j]).0 by {
        if payouts@[i].0 == payouts@[j].0 {
            assert(payouts@[i].1 == awaiting.increments@[payouts@[i].0.1]);
            assert(payouts@[j].1 == awaiting.increments@[payouts@[j].0.1]);
            assert(payouts@[i] == payouts@[j]);
        }
    }
}

/// Once the amounts are paid the block is reported where there is a hook, and else ends with what
/// it has collected. A failure of the payment makes the block invalid.
pub proof fn law_paid_block_is_reported_or_ends<
    'a,
    E: Evm,
    Spec,
    R: ReceiptBuilder<E>,
    H,
    DbError,
>(
    awaiting: AwaitingPayout<'a, E, Spec, R, H>,
    outcome: Result<(), DbError>,
    next: Result<ReportStep<'a, E, Spec, R, H>, BlockExecutionError<E::Error>>,
)
    requires
        call_ensures(
            AwaitingPayout::<'a, E, Spec, R, H>::paid::<DbError>,
            (awaiting, outcome),
            next,
        ),
    ensures
        outcome is Err ==> next matches Err(
            BlockExecutionError::Validation(BlockValidationError::IncrementBalanceFailed),
        ),
        outcome is Ok ==> {
            &&& next matches Ok(step)
            &&& step is Report <==> awaiting.executor.hook() is Some
            &&& match step {
                ReportStep::Report(after) => {
                    &&& after.executor == awaiting.executor
                    &&& after.requests == awaiting.requests
                    &&& after.increments == awaiting.increments
                },
                ReportStep::Skip(evm, result) => {
                    &&& evm == awaiting.executor.machine()
                    &&& result.requests == awaiting.requests
                    &&& result.receipts@ == awaiting.executor.totals().receipts
                    &&& result.gas_used == awaiting.executor.totals().gas_used
                    &&& result.state_changes@ == awaiting.executor.totals().state_changes
                    &&& result.gas_used_per_chain@
                        == awaiting.executor.totals().gas_used_per_chain
                },
            }
        },
{
    if outcome is Ok {
        if let Ok(ReportStep::Skip(evm, result)) = next {
            block::law_result_has_what_was_collected(
                awaiting.executor,
                awaiting.requests,
                evm,
                result,
            );
        }
    }
}

/// A block that was reported ends with what it has collected, and its hook was told of the state as
/// that of increased balances. An error in place of the state is returned as it is.
pub proof fn law_reported_block_ends<
    'a,
    E: Evm,
    Spec,
    R: ReceiptBuilder<E>,
    H: OnStateHook<E::State>,
>(
    awaiting: AwaitingReport<'a, E, Spec, R, H>,
    state: Result<E::State, BlockExecutionError<E::Error>>,
    ended: Result<
        (E, BlockExecutionResult<R::Receipt, E::StateChanges>),
        BlockExecutionError<E::Error>,
    >,
)
    requires
        call_ensures(
            AwaitingReport::<'a, E, Spec, R, H>::reported,
            (awaiting, state),
            ended,
        ),
    ensures
        state matches Err(error) ==> (ended matches Err(found) && found == error),
        state matches Ok(told_of) ==> {
            &&& ended matches Ok((evm, result))
            &&& evm == awaiting.executor.machine()
            &&& result.requests == awaiting.requests
            &&& result.receipts@ == awaiting.executor.totals().receipts
            &&& result.gas_used == awaiting.executor.totals().gas_used
            &&& result.state_changes@ == awaiting.executor.totals().state_changes
            &&& result.gas_used_per_chain@ == awaiting.executor.totals().gas_used_per_chain
            &&& awaiting.executor.hook() matches Some(hook) ==> exists|told: &mut H|
                {
                    &&& *told == hook
                    &&& #[trigger] call_ensures(
                        <H as OnStateHook<E::State>>::on_state,
                        (
                            told,
                            StateChangeSource::PostBlock(
                                StateChangePostBlockSource::BalanceIncrements,
                            ),
                            &told_of,
                        ),
                        (),
                    )
                }
        },
{
    if state is Ok {
        if let Ok((evm, result)) = ended {
            block::law_result_has_what_was_collected(
                awaiting.executor,
                awaiting.requests,
                evm,
                result,
            );
        }
    }
}

/// The OP machine is on mainnet, and an inspector makes no difference to it.
pub proof fn law_stub_is_on_mainnet<DB>(
    factory: OpEvmFactory,
    db: DB,
    input: EvmEnv<OpSpecId>,
    plain: OpEvm<DB, NoOpInspector>,
    inspected: OpEvm<DB, NoOpInspector>,
    inspector: NoOpInspector,
    chain_id: u64,
)
    requires
        call_ensures(OpEvmFactory::create_evm::<DB>, (&factory, db, input), plain),
        call_ensures(
            OpEvmFactory::create_evm_with_inspector::<DB, NoOpInspector>,
            (&factory, db, input, inspector),
            inspected,
        ),
        call_ensures(OpEvm::<DB, NoOpInspector>::chain_id, (&plain,), chain_id),
    ensures
        inspected == plain,
        chain_id == 1,
{
}

} // verus!
