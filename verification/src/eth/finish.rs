//! The end of a block.
//!
//! What is to be done at the end of a block alternates between decisions and work on the state.
//! Each type of this module stands for a block that waits for one piece of that work, and its
//! method that takes the outcome decides how to go on.

use alloy_eips::eip7685::Requests;

use vstd::prelude::*;

use crate::balances::{self, checked_sum, BalanceIncrements};
use crate::error::{BlockExecutionError, BlockValidationError};
use crate::eth::block::{BlockExecutionResult, EthBlockExecutor};
use crate::eth::hook::{OnStateHook, StateChangePostBlockSource, StateChangeSource};
use crate::eth::receipts::ReceiptBuilder;
use crate::evm::Evm;
use crate::hardforks::{EthExecutorSpec, EthereumHardfork};
use crate::primitives::{self, Address, ChainAddress};
use crate::requests::{
    self, extend_requests, no_requests, push_request_with_type, DEPOSIT_REQUEST_TYPE,
};

verus! {

broadcast use vstd::std_specs::hash::group_hash_axioms;

/// The accounts that the DAO fork drains, and the account that receives their balances.
#[derive(Debug)]
pub struct DaoFork {
    /// The accounts that are drained.
    pub accounts: Vec<Address>,
    /// The account that receives the balances.
    pub beneficiary: Address,
}

/// A block whose deposits are to be read from its receipts.
pub struct AwaitingDeposits<'a, E: Evm, Spec, R: ReceiptBuilder<E>, H> {
    /// The executor of the block.
    pub executor: EthBlockExecutor<'a, E, Spec, R, H>,
}

/// A block after whose transactions the system contracts are to be called.
pub struct AwaitingSystemCalls<'a, E: Evm, Spec, R: ReceiptBuilder<E>, H> {
    /// The executor of the block.
    pub executor: EthBlockExecutor<'a, E, Spec, R, H>,
    /// The requests of the block so far.
    pub requests: Requests,
}

/// A block whose rewards and withdrawals are to be listed.
pub struct AwaitingIncrements<'a, E: Evm, Spec, R: ReceiptBuilder<E>, H> {
    /// The executor of the block.
    pub executor: EthBlockExecutor<'a, E, Spec, R, H>,
    /// The requests of the block.
    pub requests: Requests,
}

/// A block in which the balances of `accounts` are to be drained.
pub struct AwaitingDrain<'a, E: Evm, Spec, R: ReceiptBuilder<E>, H> {
    /// The executor of the block.
    pub executor: EthBlockExecutor<'a, E, Spec, R, H>,
    /// The requests of the block.
    pub requests: Requests,
    /// The amounts by which balances increase at the end of the block.
    pub increments: BalanceIncrements,
    /// The accounts to drain.
    pub accounts: Vec<ChainAddress>,
    /// The address that receives the balances.
    pub beneficiary: Address,
}

/// A block in which balances are to be increased.
pub struct AwaitingPayout<'a, E: Evm, Spec, R: ReceiptBuilder<E>, H> {
    /// The executor of the block.
    pub executor: EthBlockExecutor<'a, E, Spec, R, H>,
    /// The requests of the block.
    pub requests: Requests,
    /// The amounts by which balances increase at the end of the block.
    pub increments: BalanceIncrements,
}

/// A block whose balances have been increased, which is to be reported.
pub struct AwaitingReport<'a, E: Evm, Spec, R: ReceiptBuilder<E>, H> {
    /// The executor of the block.
    pub executor: EthBlockExecutor<'a, E, Spec, R, H>,
    /// The requests of the block.
    pub requests: Requests,
    /// The amounts by which balances have increased.
    pub increments: BalanceIncrements,
}

/// What a block does about requests.
pub enum RequestsStep<'a, E: Evm, Spec, R: ReceiptBuilder<E>, H> {
    /// It collects requests, those for deposits first.
    Collect(AwaitingDeposits<'a, E, Spec, R, H>),
    /// It has none.
    Skip(AwaitingIncrements<'a, E, Spec, R, H>),
}

/// What a block does before it increases balances.
pub enum DrainStep<'a, E: Evm, Spec, R: ReceiptBuilder<E>, H> {
    /// It drains accounts.
    Drain(AwaitingDrain<'a, E, Spec, R, H>),
    /// It drains nothing.
    Skip(AwaitingPayout<'a, E, Spec, R, H>),
}

/// What a block does after it has increased balances.
pub enum ReportStep<'a, E: Evm, Spec, R: ReceiptBuilder<E>, H> {
    /// It reports the increase.
    Report(AwaitingReport<'a, E, Spec, R, H>),
    /// It ends with this machine and this result.
    Skip(E, BlockExecutionResult<R::Receipt, E::StateChanges>),
}

/// The requests for the deposits `deposits` of a block: one, behind its type byte, or none where
/// there are no deposits.
pub open spec fn deposit_requests(deposits: Seq<u8>) -> Seq<Seq<u8>> {
    if deposits.len() == 0 {
        Seq::empty()
    } else {
        seq![seq![DEPOSIT_REQUEST_TYPE] + deposits]
    }
}

/// The accounts at `addresses` on the chain `chain_id`.
pub open spec fn accounts_on(chain_id: u64, addresses: Seq<Address>) -> Seq<ChainAddress> {
    addresses.map_values(|address: Address| ChainAddress(chain_id, address))
}

impl<'a, E: Evm, Spec: EthExecutorSpec, R: ReceiptBuilder<E>, H> EthBlockExecutor<'a, E, Spec, R, H> {
    /// Whether the block collects requests: from Prague on.
    pub open spec fn collects_requests(self) -> bool {
        self.schedule().activation(EthereumHardfork::Prague).is_active_at_timestamp(
            primitives::saturated(self.machine().env().block().timestamp@),
        )
    }

    /// Whether the block drains the accounts of the DAO fork: where it is the first of that fork.
    pub open spec fn drains_dao(self) -> bool {
        self.schedule().activation(EthereumHardfork::Dao).is_transition_block(
            primitives::saturated(self.machine().env().block().number@),
        )
    }

    /// Ends the block after its transactions.
    pub fn finish(self) -> (step: RequestsStep<'a, E, Spec, R, H>)
        requires
            self.machine().env().has_block(),
        ensures
            self.collects_requests() ==> step == RequestsStep::Collect(
                AwaitingDeposits { executor: self },
            ),
            !self.collects_requests() ==> {
                &&& step matches RequestsStep::Skip(next)
                &&& next.executor == self
                &&& requests::requests_in(next.requests) == Seq::<Seq<u8>>::empty()
            },
    {
        let timestamp: u64 = self.evm().block().timestamp.saturating_to();
        if self.spec().is_prague_active_at_timestamp(timestamp) {
            RequestsStep::Collect(AwaitingDeposits { executor: self })
        } else {
            RequestsStep::Skip(AwaitingIncrements { executor: self, requests: no_requests() })
        }
    }
}

impl<'a, E: Evm, Spec, R: ReceiptBuilder<E>, H> AwaitingDeposits<'a, E, Spec, R, H> {
    /// Takes the deposits that the receipts of the block hold.
    pub fn deposits(self, deposits: Result<Vec<u8>, BlockValidationError>) -> (next: Result<
        AwaitingSystemCalls<'a, E, Spec, R, H>,
        BlockExecutionError<E::Error>,
    >)
        ensures
            match deposits {
                Err(error) => next == Err::<AwaitingSystemCalls<'a, E, Spec, R, H>, _>(
                    BlockExecutionError::<E::Error>::Validation(error),
                ),
                Ok(deposits) => next matches Ok(next) && next.executor == self.executor
                    && requests::requests_in(next.requests) == deposit_requests(deposits@),
            },
    {
        let deposits = match deposits {
            Ok(deposits) => deposits,
            Err(error) => {
                return Err(BlockExecutionError::from(error));
            },
        };
        let mut requests = no_requests();
        if !deposits.is_empty() {
            push_request_with_type(&mut requests, DEPOSIT_REQUEST_TYPE, deposits);
        }
        Ok(AwaitingSystemCalls { executor: self.executor, requests })
    }
}

impl<'a, E: Evm, Spec, R: ReceiptBuilder<E>, H> AwaitingSystemCalls<'a, E, Spec, R, H> {
    /// Takes the requests that the system contracts returned.
    pub fn system_requests(
        self,
        requests: Result<Requests, BlockExecutionError<E::Error>>,
    ) -> (next: Result<AwaitingIncrements<'a, E, Spec, R, H>, BlockExecutionError<E::Error>>)
        ensures
            match requests {
                Err(error) => next == Err::<AwaitingIncrements<'a, E, Spec, R, H>, _>(error),
                Ok(more) => next matches Ok(next) && next.executor == self.executor
                    && requests::requests_in(next.requests)
                    == requests::requests_in(self.requests)
                    + requests::requests_in(more),
            },
    {
        let more = match requests {
            Ok(more) => more,
            Err(error) => {
                return Err(error);
            },
        };
        let mut requests = self.requests;
        extend_requests(&mut requests, more);
        Ok(AwaitingIncrements { executor: self.executor, requests })
    }
}

impl<'a, E: Evm, Spec: EthExecutorSpec, R: ReceiptBuilder<E>, H> AwaitingIncrements<'a, E, Spec, R, H> {
    /// Takes the amounts of the rewards and withdrawals of the block.
    pub fn balance_increments(self, increments: BalanceIncrements, dao_fork: DaoFork) -> (step:
        DrainStep<'a, E, Spec, R, H>)
        requires
            self.executor.machine().env().has_block(),
        ensures
            self.executor.drains_dao() ==> {
                &&& step matches DrainStep::Drain(next)
                &&& next.executor == self.executor
                &&& next.requests == self.requests
                &&& next.increments == increments
                &&& next.accounts@ == accounts_on(
                    self.executor.machine().env().cfg_env.chain_id,
                    dao_fork.accounts@,
                )
                &&& next.beneficiary == dao_fork.beneficiary
            },
            !self.executor.drains_dao() ==> step == DrainStep::Skip(
                AwaitingPayout { executor: self.executor, requests: self.requests, increments },
            ),
    {
        let number: u64 = self.executor.evm().block().number.saturating_to();
        if self.executor.spec().ethereum_fork_activation(
            EthereumHardfork::Dao,
        ).transitions_at_block(number) {
            let chain_id: u64 = self.executor.evm().chain_id();
            let mut accounts: Vec<ChainAddress> = Vec::new();
            let mut i: usize = 0;
            while i < dao_fork.accounts.len()
                invariant
                    i <= dao_fork.accounts@.len(),
                    accounts@ =~= accounts_on(chain_id, dao_fork.accounts@.take(i as int)),
                decreases dao_fork.accounts@.len() - i,
            {
                accounts.push(ChainAddress::new(chain_id, dao_fork.accounts[i]));
                i += 1;
            }
            assert(dao_fork.accounts@.take(i as int) =~= dao_fork.accounts@);
            DrainStep::Drain(
                AwaitingDrain {
                    executor: self.executor,
                    requests: self.requests,
                    increments,
                    accounts,
                    beneficiary: dao_fork.beneficiary,
                },
            )
        } else {
            DrainStep::Skip(
                AwaitingPayout { executor: self.executor, requests: self.requests, increments },
            )
        }
    }
}

impl<'a, E: Evm, Spec, R: ReceiptBuilder<E>, H> AwaitingDrain<'a, E, Spec, R, H> {
    /// Takes the balances that were drained, and adds them to what the beneficiary receives.
    pub fn drained<DbError>(self, balances: Result<Vec<u128>, DbError>) -> (next: Result<
        AwaitingPayout<'a, E, Spec, R, H>,
        BlockExecutionError<E::Error>,
    >)
        requires
            balances matches Ok(b) ==> self.increments.amount(self.beneficiary)
                + balances::sum(b@) <= u128::MAX,
        ensures
            match balances {
                Err(_) => next == Err::<AwaitingPayout<'a, E, Spec, R, H>, _>(
                    BlockExecutionError::<E::Error>::Validation(
                        BlockValidationError::IncrementBalanceFailed,
                    ),
                ),
                Ok(b) => {
                    &&& next matches Ok(next)
                    &&& next.executor == self.executor
                    &&& next.requests == self.requests
                    &&& next.increments@ == self.increments@.insert(
                        self.beneficiary,
                        (self.increments.amount(self.beneficiary) + balances::sum(
                            b@,
                        )) as u128,
                    )
                    &&& next.increments.total() == self.increments.total() + balances::sum(
                        b@,
                    )
                },
            },
    {
        let balances = match balances {
            Ok(balances) => balances,
            Err(_) => {
                return Err(BlockExecutionError::from(BlockValidationError::IncrementBalanceFailed));
            },
        };
        let drained_balance: u128 = checked_sum(&balances).unwrap();
        let mut increments = self.increments;
        increments.add(self.beneficiary, drained_balance);
        Ok(AwaitingPayout { executor: self.executor, requests: self.requests, increments })
    }
}

impl<'a, E: Evm, Spec, R: ReceiptBuilder<E>, H> AwaitingPayout<'a, E, Spec, R, H> {
    /// Returns the accounts whose balances are to be increased, with the amounts.
    pub fn payouts(&self) -> (payouts: Vec<(ChainAddress, u128)>)
        ensures
            self.increments.is_listed(self.executor.machine().env().cfg_env.chain_id, payouts@),
            balances::sum(
                payouts@.map_values(|payout: (ChainAddress, u128)| payout.1),
            ) == self.increments.total(),
    {
        self.increments.on_chain(self.executor.evm().chain_id())
    }

    /// Takes the outcome of the increase. Where there is no hook to tell of it the block ends.
    pub fn paid<DbError>(self, outcome: Result<(), DbError>) -> (next: Result<
        ReportStep<'a, E, Spec, R, H>,
        BlockExecutionError<E::Error>,
    >)
        ensures
            match outcome {
                Err(_) => next == Err::<ReportStep<'a, E, Spec, R, H>, _>(
                    BlockExecutionError::<E::Error>::Validation(
                        BlockValidationError::IncrementBalanceFailed,
                    ),
                ),
                Ok(_) => if self.executor.hook() is Some {
                    next == Ok::<_, BlockExecutionError<E::Error>>(
                        ReportStep::Report(
                            AwaitingReport {
                                executor: self.executor,
                                requests: self.requests,
                                increments: self.increments,
                            },
                        ),
                    )
                } else {
                    &&& next matches Ok(ReportStep::Skip(evm, result))
                    &&& self.executor.ends_with(self.requests, evm, result)
                },
            },
    {
        match outcome {
            Ok(_) => if self.executor.has_hook() {
                Ok(
                    ReportStep::Report(
                        AwaitingReport {
                            executor: self.executor,
                            requests: self.requests,
                            increments: self.increments,
                        },
                    ),
                )
            } else {
                let (evm, result) = self.executor.into_result(self.requests);
                Ok(ReportStep::Skip(evm, result))
            },
            Err(_) => Err(BlockExecutionError::from(BlockValidationError::IncrementBalanceFailed)),
        }
    }
}

impl<'a, E: Evm, Spec, R: ReceiptBuilder<E>, H: OnStateHook<E::State>> AwaitingReport<
    'a,
    E,
    Spec,
    R,
    H,
> {
    /// Takes the state of the accounts whose balances have increased, reports it to the hook, and
    /// returns the machine and the result of the block.
    pub fn reported(self, state: Result<E::State, BlockExecutionError<E::Error>>) -> (ended: Result<
        (E, BlockExecutionResult<R::Receipt, E::StateChanges>),
        BlockExecutionError<E::Error>,
    >)
        ensures
            match state {
                Err(error) => ended == Err::<
                    (E, BlockExecutionResult<R::Receipt, E::StateChanges>),
                    _,
                >(error),
                Ok(state) => {
                    &&& ended matches Ok((evm, result))
                    &&& self.executor.ends_with(self.requests, evm, result)
                    &&& self.executor.hook() matches Some(before) ==> exists|told: &mut H|
                        {
                            &&& *told == before
                            &&& #[trigger] call_ensures(
                                <H as OnStateHook<E::State>>::on_state,
                                (
                                    told,
                                    StateChangeSource::PostBlock(
                                        StateChangePostBlockSource::BalanceIncrements,
                                    ),
                                    &state,
                                ),
                                (),
                            )
                        }
                },
            },
    {
        match state {
            Ok(state) => {
                let mut executor = self.executor;
                executor.report(
                    StateChangeSource::PostBlock(StateChangePostBlockSource::BalanceIncrements),
                    state,
                );
                Ok(executor.into_result(self.requests))
            },
            Err(error) => Err(error),
        }
    }
}

impl<'a, E: Evm, Spec, R: ReceiptBuilder<E>, H> EthBlockExecutor<'a, E, Spec, R, H> {
    /// Whether two executors are in equal states, but for the contexts of other chains than that
    /// of the machine.
    pub open spec fn agrees_with(self, other: Self) -> bool {
        let chain_id = self.machine().env().cfg_env.chain_id;
        &&& other.machine() == self.machine()
        &&& other.schedule() == self.schedule()
        &&& other.builder() == self.builder()
        &&& other.hook() == self.hook()
        &&& other.totals() == self.totals()
        &&& other.has_context() == self.has_context()
        &&& self.has_context() ==> other.contexts()@[chain_id] == self.contexts()@[chain_id]
    }
}

/// Only the context of the machine's own chain matters at the end of a block: executors that agree
/// in all else and in that context make the same decisions, pay by the same context to accounts of
/// the same chain, report to the same hook and end with the same machines and results.
pub proof fn law_only_the_own_context_matters<
    'a,
    E: Evm,
    Spec: EthExecutorSpec,
    R: ReceiptBuilder<E>,
    H,
>(
    one: EthBlockExecutor<'a, E, Spec, R, H>,
    other: EthBlockExecutor<'a, E, Spec, R, H>,
    addresses: Seq<Address>,
    requests: Requests,
    evm: E,
    result: BlockExecutionResult<R::Receipt, E::StateChanges>,
)
    requires
        one.agrees_with(other),
    ensures
        other.collects_requests() == one.collects_requests(),
        other.drains_dao() == one.drains_dao(),
        other.has_context() == one.has_context(),
        one.has_context() ==> other.contexts()@[other.machine().env().cfg_env.chain_id]
            == one.contexts()@[one.machine().env().cfg_env.chain_id],
        accounts_on(other.machine().env().cfg_env.chain_id, addresses) == accounts_on(
            one.machine().env().cfg_env.chain_id,
            addresses,
        ),
        other.hook() == one.hook(),
        other.ends_with(requests, evm, result) <==> one.ends_with(requests, evm, result),
{
}

/// Whatever is done to the machine of an executor in several steps leaves what the block has
/// collected as it is, and so the result of the block.
pub proof fn law_work_on_the_machine_keeps_the_block<'a, E: Evm, Spec, R: ReceiptBuilder<E>, H>(
    first: EthBlockExecutor<'a, E, Spec, R, H>,
    second: EthBlockExecutor<'a, E, Spec, R, H>,
    third: EthBlockExecutor<'a, E, Spec, R, H>,
)
    requires
        first.is_kept_by(second),
        second.is_kept_by(third),
    ensures
        first.is_kept_by(first),
        first.is_kept_by(third),
        third.totals() == first.totals(),
{
}

/// The requests of a block are that for its deposits, where it has any, and behind it those of the
/// system contracts. The one for deposits begins with its type byte and is never empty.
pub proof fn law_deposits_come_first(deposits: Seq<u8>, system: Seq<Seq<u8>>)
    ensures
        deposits.len() == 0 ==> deposit_requests(deposits) + system == system,
        deposits.len() > 0 ==> {
            let requests = deposit_requests(deposits) + system;
            &&& requests.len() == system.len() + 1
            &&& requests[0][0] == DEPOSIT_REQUEST_TYPE
            &&& requests[0].skip(1) == deposits
            &&& requests.skip(1) == system
        },
{
    if deposits.len() > 0 {
        let requests = deposit_requests(deposits) + system;
        assert(requests[0].skip(1) =~= deposits);
        assert(requests.skip(1) =~= system);
    } else {
        assert(deposit_requests(deposits) + system =~= system);
    }
}

} // verus!
