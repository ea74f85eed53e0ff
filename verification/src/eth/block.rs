//! The Ethereum block executor.

use std::borrow::Cow;
use std::collections::HashMap;

use alloy_consensus::Header;
use alloy_eips::eip4895::{Withdrawal, Withdrawals};
use alloy_eips::eip7685::Requests;

use vstd::prelude::*;

use crate::env::chain_ids;
use crate::error::{BlockExecutionError, BlockValidationError};
use crate::eth::gas;
use crate::eth::hook::{NoStateHook, OnStateHook, ReportedState, StateChangeSource};
use crate::eth::receipts::{ReceiptBuilder, ReceiptBuilderCtx};
use crate::eth::{EthEvm, EthEvmFactory};
use crate::evm::{Evm, MultiDatabase, MultiDatabaseCommit, NoOpInspector, Transact};
use crate::hardforks::{EthExecutorSpec, EthSpec, EthereumHardfork};
use crate::primitives::{self, B256};
use crate::result::{ExecutionResult, ResultAndState};
use crate::tx::IntoTxEnv;

verus! {

broadcast use vstd::std_specs::hash::group_hash_axioms;

/// The block header of `alloy_consensus`.
#[verifier::external_type_specification]
#[verifier::external_body]
pub struct ExHeader(Header);

/// The withdrawal of `alloy_eips`.
#[verifier::external_type_specification]
#[verifier::external_body]
pub struct ExWithdrawal(Withdrawal);

/// The list of withdrawals of `alloy_eips`.
#[verifier::external_type_specification]
#[verifier::external_body]
pub struct ExWithdrawals(Withdrawals);

/// Context for Ethereum block execution on one chain.
#[derive(Debug, Clone)]
pub struct EthBlockExecutionCtx<'a> {
    /// Parent block hash.
    pub parent_hash: B256,
    /// Parent beacon block root.
    pub parent_beacon_block_root: Option<B256>,
    /// Block ommers.
    pub ommers: &'a [Header],
    /// Block withdrawals.
    pub withdrawals: Option<Cow<'a, Withdrawals>>,
}

/// A transaction to execute, with what the executor asks of it.
#[derive(Debug)]
pub struct ExecutableTx<'t, T, X> {
    /// The transaction.
    pub tx: &'t T,
    /// What the machine executes.
    pub env: X,
    /// The gas limit of the transaction.
    pub gas_limit: u64,
    /// The hash of the transaction.
    pub hash: B256,
}

/// Whether the changes of a transaction are kept.
#[derive(Debug, Clone, Copy, PartialEq, Eq, Structural)]
pub enum CommitChanges {
    /// They are kept.
    Yes,
    /// They are dropped.
    No,
}

impl CommitChanges {
    /// Whether the changes are kept.
    pub fn should_commit(self) -> (commit: bool)
        ensures
            commit == (self is Yes),
    {
        match self {
            CommitChanges::Yes => true,
            CommitChanges::No => false,
        }
    }
}

/// What a block has collected from its transactions.
pub ghost struct BlockTotals<Receipt, StateChanges> {
    /// The receipts of the transactions.
    pub receipts: Seq<Receipt>,
    /// The gas that the transactions spent.
    pub gas_used: u64,
    /// The state changes of the transactions.
    pub state_changes: Seq<StateChanges>,
    /// The gas that the transactions spent on each chain.
    pub gas_used_per_chain: Map<u64, u64>,
}

impl<Receipt, StateChanges> BlockTotals<Receipt, StateChanges> {
    /// The totals of a block without transactions.
    pub open spec fn empty() -> Self {
        BlockTotals {
            receipts: Seq::empty(),
            gas_used: 0,
            state_changes: Seq::empty(),
            gas_used_per_chain: Map::empty(),
        }
    }

    /// Whether there is one receipt for each entry of the state changes.
    pub open spec fn wf(self) -> bool {
        self.receipts.len() == self.state_changes.len()
    }

    /// Whether the counters have room for the gas of `result`.
    pub open spec fn has_room<HaltReason>(self, result: ExecutionResult<HaltReason>) -> bool {
        &&& self.gas_used + result.gas_used <= u64::MAX
        &&& gas::has_room(self.gas_used_per_chain, result.gas_used_per_chain@)
    }

    /// The totals after a transaction with the result `result`, the state changes `changes` and
    /// the receipt `receipt`.
    pub open spec fn after<HaltReason>(
        self,
        result: ExecutionResult<HaltReason>,
        changes: StateChanges,
        receipt: Receipt,
    ) -> Self {
        BlockTotals {
            receipts: self.receipts.push(receipt),
            gas_used: (self.gas_used + result.gas_used) as u64,
            state_changes: self.state_changes.push(changes),
            gas_used_per_chain: gas::count(self.gas_used_per_chain, result.gas_used_per_chain@),
        }
    }
}

/// What the execution of a block gives back.
#[derive(Debug)]
pub struct BlockExecutionResult<Receipt, StateChanges> {
    /// The receipts of the transactions.
    pub receipts: Vec<Receipt>,
    /// The requests of the block.
    pub requests: Requests,
    /// The gas that the transactions spent.
    pub gas_used: u64,
    /// The state changes of the transactions.
    pub state_changes: Vec<StateChanges>,
    /// The gas that the transactions spent on each chain.
    pub gas_used_per_chain: HashMap<u64, u64>,
}

impl<Receipt, StateChanges> BlockExecutionResult<Receipt, StateChanges> {
    /// What the block has collected from its transactions.
    pub open spec fn totals(self) -> BlockTotals<Receipt, StateChanges> {
        BlockTotals {
            receipts: self.receipts@,
            gas_used: self.gas_used,
            state_changes: self.state_changes@,
            gas_used_per_chain: self.gas_used_per_chain@,
        }
    }
}

/// A step before the transactions of a block.
#[derive(Debug, Clone, Copy)]
pub enum PreExecutionStep {
    /// Tells the database whether it clears empty accounts. This cannot fail.
    StateClearFlag(bool),
    /// Hands the hash of the parent block to the contract that keeps block hashes.
    Blockhashes {
        /// The chain of the contract.
        chain_id: u64,
        /// The hash.
        parent_hash: B256,
    },
    /// Hands the root of the parent beacon block to the contract that keeps beacon roots.
    BeaconRoot {
        /// The chain of the contract.
        chain_id: u64,
        /// The root.
        parent_beacon_block_root: Option<B256>,
    },
}

/// The steps for the chains `order`: first the flag `state_clear_flag`, and then for each chain the
/// call of the contract for block hashes and that of the contract for beacon roots.
pub open spec fn pre_execution_steps(
    state_clear_flag: bool,
    order: Seq<u64>,
    ctx: Map<u64, EthBlockExecutionCtx<'_>>,
) -> Seq<PreExecutionStep> {
    Seq::new(
        1 + 2 * order.len(),
        |i: int|
            {
                let chain_id = order[(i - 1) / 2];
                if i == 0 {
                    PreExecutionStep::StateClearFlag(state_clear_flag)
                } else if i % 2 == 1 {
                    PreExecutionStep::Blockhashes {
                        chain_id,
                        parent_hash: ctx[chain_id].parent_hash,
                    }
                } else {
                    PreExecutionStep::BeaconRoot {
                        chain_id,
                        parent_beacon_block_root: ctx[chain_id].parent_beacon_block_root,
                    }
                }
            },
    )
}

/// The steps that are left before the transactions of a block.
#[derive(Debug)]
pub struct PreExecutionRun {
    steps: Vec<PreExecutionStep>,
    done: usize,
}

impl View for PreExecutionRun {
    type V = Seq<PreExecutionStep>;

    /// The steps that are left, in their order.
    closed spec fn view(&self) -> Seq<PreExecutionStep> {
        self.steps@.skip(self.done as int)
    }
}

impl PreExecutionRun {
    #[verifier::type_invariant]
    spec fn inv(self) -> bool {
        self.done <= self.steps@.len()
    }

    /// Returns the step to take next, or `None` where all were taken.
    pub fn next_step(&self) -> (step: Option<PreExecutionStep>)
        ensures
            step == if self@.len() == 0 {
                None
            } else {
                Some(self@.first())
            },
    {
        proof {
            use_type_invariant(self);
        }
        if self.done < self.steps.len() {
            Some(self.steps[self.done])
        } else {
            None
        }
    }

    /// Takes the outcome of the next step. An error ends the run and is returned, and no further
    /// step is taken.
    pub fn taken<Error>(self, outcome: Result<(), Error>) -> (rest: Result<Self, Error>)
        requires
            self@.len() > 0,
        ensures
            match outcome {
                Err(error) => rest == Err::<Self, Error>(error),
                Ok(_) => rest matches Ok(run) && run@ == self@.skip(1),
            },
    {
        proof {
            use_type_invariant(&self);
        }
        match outcome {
            Ok(_) => {
                assert(self.done < self.steps.len());
                let run = PreExecutionRun { steps: self.steps, done: self.done + 1 };
                assert(run@ =~= self@.skip(1));
                Ok(run)
            },
            Err(error) => Err(error),
        }
    }
}

/// What comes of a run over `steps` whose steps have the outcomes `outcomes`: the steps that are
/// left, or the error with which it ended.
pub open spec fn run_over<Error>(
    steps: Seq<PreExecutionStep>,
    outcomes: Seq<Result<(), Error>>,
) -> Result<Seq<PreExecutionStep>, Error>
    decreases outcomes.len(),
{
    if outcomes.len() == 0 || steps.len() == 0 {
        Ok(steps)
    } else {
        match outcomes.first() {
            Err(error) => Err(error),
            Ok(_) => run_over(steps.skip(1), outcomes.skip(1)),
        }
    }
}

/// The work before the transactions stops at the first step that fails and returns its error,
/// whatever later steps would have given, and succeeds where every step does.
pub proof fn law_run_stops_at_the_first_failure<Error>(
    steps: Seq<PreExecutionStep>,
    outcomes: Seq<Result<(), Error>>,
    n: int,
)
    requires
        0 <= n <= steps.len(),
        n <= outcomes.len(),
        forall|i: int| 0 <= i < n ==> (#[trigger] outcomes[i]) is Ok,
        n < steps.len() ==> n < outcomes.len() && outcomes[n] is Err,
    ensures
        n < steps.len() ==> run_over(steps, outcomes) == Err::<Seq<PreExecutionStep>, Error>(
            outcomes[n]->Err_0,
        ),
        n == steps.len() ==> run_over(steps, outcomes) == Ok::<Seq<PreExecutionStep>, Error>(
            Seq::empty(),
        ),
    decreases n,
{
    if n > 0 {
        assert(outcomes[0] is Ok);
        assert forall|i: int| 0 <= i < n - 1 implies (#[trigger] outcomes.skip(1)[i]) is Ok by {
            assert(outcomes[i + 1] is Ok);
        }
        law_run_stops_at_the_first_failure(steps.skip(1), outcomes.skip(1), n - 1);
    } else if steps.len() == 0 {
        assert(steps =~= Seq::empty());
    }
}

/// Block executor for Ethereum.
#[derive(Debug)]
pub struct EthBlockExecutor<'a, E: Evm, Spec, R: ReceiptBuilder<E>, H = NoStateHook> {
    spec: Spec,
    /// Context for block execution on each chain.
    pub ctx: HashMap<u64, EthBlockExecutionCtx<'a>>,
    evm: E,
    receipt_builder: R,
    hook: Option<H>,
    receipts: Vec<R::Receipt>,
    gas_used: u64,
    state_changes: Vec<E::StateChanges>,
    gas_used_per_chain: HashMap<u64, u64>,
}

impl<'a, E: Evm, Spec, R: ReceiptBuilder<E>, H> EthBlockExecutor<'a, E, Spec, R, H> {
    /// The machine.
    pub closed spec fn machine(self) -> E {
        self.evm
    }

    /// The fork schedule.
    pub closed spec fn schedule(self) -> Spec {
        self.spec
    }

    /// The builder of the receipts.
    pub closed spec fn builder(self) -> R {
        self.receipt_builder
    }

    /// The hook that is told of state changes.
    pub closed spec fn hook(self) -> Option<H> {
        self.hook
    }

    /// The contexts for block execution, by chain.
    pub closed spec fn contexts(self) -> HashMap<u64, EthBlockExecutionCtx<'a>> {
        self.ctx
    }

    /// What the block has collected from its transactions.
    pub closed spec fn totals(self) -> BlockTotals<R::Receipt, E::StateChanges> {
        BlockTotals {
            receipts: self.receipts@,
            gas_used: self.gas_used,
            state_changes: self.state_changes@,
            gas_used_per_chain: self.gas_used_per_chain@,
        }
    }

    /// Whether `after` differs from this executor in its machine at most.
    pub open spec fn is_kept_by(self, after: Self) -> bool {
        &&& after.schedule() == self.schedule()
        &&& after.builder() == self.builder()
        &&& after.contexts() == self.contexts()
        &&& after.hook() == self.hook()
        &&& after.totals() == self.totals()
    }

    /// The gas that is left in the block.
    pub open spec fn available_gas(self) -> int {
        self.machine().env().block().gas_limit - self.totals().gas_used
    }

    /// Whether `after` has the fork schedule, the builder of receipts and the contexts of this
    /// executor, the same environment, and in its totals the transaction `tx`, which `machine`
    /// executed with the outcome `executed`.
    pub open spec fn takes_in(
        self,
        tx: R::Transaction,
        machine: E,
        executed: ResultAndState<E::HaltReason, E::State, E::StateChanges>,
        after: Self,
    ) -> bool {
        &&& after.schedule() == self.schedule()
        &&& after.builder() == self.builder()
        &&& after.contexts() == self.contexts()
        &&& after.machine().env() == self.machine().env()
        &&& exists|receipt: R::Receipt|
            {
                &&& #[trigger] call_ensures(
                    R::build_receipt,
                    (
                        &self.builder(),
                        ReceiptBuilderCtx {
                            tx: &tx,
                            evm: &machine,
                            result: executed.result,
                            state: &executed.state,
                            cumulative_gas_used: (self.totals().gas_used
                                + executed.result.gas_used) as u64,
                        },
                    ),
                    receipt,
                )
                &&& after.totals() == self.totals().after(
                    executed.result,
                    executed.state_changes,
                    receipt,
                )
            }
    }

    /// The source of the changes of the next transaction: its number is that of the transactions
    /// that the block has taken in before.
    pub open spec fn next_source(self) -> StateChangeSource {
        StateChangeSource::Transaction(self.totals().receipts.len() as usize)
    }

    /// Whether `after` can come of an attempt to take a transaction with the gas limit `gas_limit`
    /// in, of which `outcome` was returned: the environment stays, and either the transaction was
    /// admitted and its gas is added, or the totals stay.
    pub open spec fn attempts(
        self,
        gas_limit: u64,
        outcome: Result<Option<u64>, BlockExecutionError<E::Error>>,
        after: Self,
    ) -> bool {
        &&& after.machine().env() == self.machine().env()
        &&& match outcome {
            Ok(Some(gas_used)) => {
                &&& gas_limit <= self.available_gas()
                &&& after.totals().gas_used == self.totals().gas_used + gas_used
                &&& after.totals().receipts.len() == self.totals().receipts.len() + 1
            },
            _ => after.totals() == self.totals(),
        }
    }

    /// Creates a new [`EthBlockExecutor`].
    pub fn new(
        evm: E,
        ctx: HashMap<u64, EthBlockExecutionCtx<'a>>,
        spec: Spec,
        receipt_builder: R,
    ) -> (executor: Self)
        ensures
            executor.machine() == evm,
            executor.contexts() == ctx,
            executor.schedule() == spec,
            executor.builder() == receipt_builder,
            executor.hook() is None,
            executor.totals() == BlockTotals::<R::Receipt, E::StateChanges>::empty(),
    {
        Self {
            evm,
            ctx,
            receipts: Vec::new(),
            gas_used: 0,
            state_changes: Vec::new(),
            gas_used_per_chain: HashMap::new(),
            spec,
            receipt_builder,
            hook: None,
        }
    }

    /// Sets the hook that is told of state changes, or removes it.
    pub fn set_state_hook(&mut self, hook: Option<H>)
        ensures
            final(self).hook() == hook,
            final(self).machine() == old(self).machine(),
            final(self).schedule() == old(self).schedule(),
            final(self).builder() == old(self).builder(),
            final(self).contexts() == old(self).contexts(),
            final(self).totals() == old(self).totals(),
    {
        self.hook = hook;
    }

    /// Returns a reference to the machine.
    pub fn evm(&self) -> (evm: &E)
        ensures
            *evm == self.machine(),
    {
        &self.evm
    }

    /// Returns a mutable reference to the machine.
    pub fn evm_mut(&mut self) -> (evm: &mut E)
        ensures
            *evm == old(self).machine(),
            final(self).machine() == *final(evm),
            old(self).is_kept_by(*final(self)),
    {
        &mut self.evm
    }

    /// Returns a reference to the fork schedule.
    pub fn spec(&self) -> (spec: &Spec)
        ensures
            *spec == self.schedule(),
    {
        &self.spec
    }

    /// Whether there is a context for the chain of the machine.
    pub open spec fn has_context(self) -> bool {
        self.contexts()@.contains_key(self.machine().env().cfg_env.chain_id)
    }

    /// Returns the context for the chain of the machine.
    pub fn chain_context(&self) -> (ctx: &EthBlockExecutionCtx<'a>)
        requires
            self.has_context(),
        ensures
            *ctx == self.contexts()@[self.machine().env().cfg_env.chain_id],
    {
        let chain_id: u64 = self.evm.chain_id();
        self.ctx.get(&chain_id).unwrap()
    }

    /// Returns a reference to the receipts of the transactions that the block has taken in.
    pub fn receipts(&self) -> (receipts: &Vec<R::Receipt>)
        ensures
            receipts@ == self.totals().receipts,
    {
        &self.receipts
    }

    /// Reports `state` to the hook, if there is one, once.
    pub fn report(&mut self, source: StateChangeSource, state: E::State) where
        H: OnStateHook<E::State>,

        ensures
            final(self).machine() == old(self).machine(),
            final(self).schedule() == old(self).schedule(),
            final(self).builder() == old(self).builder(),
            final(self).contexts() == old(self).contexts(),
            final(self).totals() == old(self).totals(),
            match old(self).hook() {
                None => final(self).hook() is None,
                Some(before) => exists|told: &mut H|
                    {
                        &&& *told == before
                        &&& final(self).hook() == Some(*final(told))
                        &&& #[trigger] call_ensures(
                            <H as OnStateHook<E::State>>::on_state,
                            (told, source, &state),
                            (),
                        )
                    },
            },
    {
        let _ = ReportedState::report(&mut self.hook, source, state);
    }

    /// Whether there is a hook that is told of state changes.
    pub fn has_hook(&self) -> (present: bool)
        ensures
            present == (self.hook() is Some),
    {
        self.hook.is_some()
    }

    /// Takes a transaction that was executed with the outcome `executed` into the block: reports
    /// its state under its number, adds up its gas, appends its receipt and its state changes, and
    /// commits its state. Returns the gas that it spent.
    pub fn commit_transaction(
        &mut self,
        tx: &R::Transaction,
        executed: ResultAndState<E::HaltReason, E::State, E::StateChanges>,
    ) -> (gas_used: u64) where E::DB: MultiDatabaseCommit<E::State>, H: OnStateHook<E::State>
        requires
            old(self).totals().has_room(executed.result),
        ensures
            gas_used == executed.result.gas_used,
            old(self).takes_in(*tx, old(self).machine(), executed, *final(self)),
            final(self).machine().precompiles() == old(self).machine().precompiles(),
            final(self).machine().inspector() == old(self).machine().inspector(),
            exists|db: &mut E::DB|
                {
                    &&& *db == old(self).machine().db()
                    &&& *final(db) == final(self).machine().db()
                    &&& #[trigger] call_ensures(
                        <E::DB as MultiDatabaseCommit<E::State>>::commit_multi,
                        (db, executed.state),
                        (),
                    )
                },
            match old(self).hook() {
                None => final(self).hook() is None,
                Some(before) => exists|told: &mut H|
                    {
                        &&& *told == before
                        &&& final(self).hook() == Some(*final(told))
                        &&& #[trigger] call_ensures(
                            <H as OnStateHook<E::State>>::on_state,
                            (told, old(self).next_source(), &executed.state),
                            (),
                        )
                    },
            },
    {
        let index: usize = self.receipts.len();
        let ResultAndState { result, state, state_changes } = executed;
        let gas_used: u64 = result.gas_used();
        let reported = ReportedState::report(
            &mut self.hook,
            StateChangeSource::Transaction(index),
            state,
        );
        gas::count_gas(&mut self.gas_used_per_chain, &result.gas_used_per_chain);
        self.state_changes.push(state_changes);
        self.gas_used += gas_used;
        let receipt = self.receipt_builder.build_receipt(
            ReceiptBuilderCtx {
                tx,
                evm: &self.evm,
                result,
                state: reported.get(),
                cumulative_gas_used: self.gas_used,
            },
        );
        self.receipts.push(receipt);
        reported.commit(self.evm.db_mut());
        gas_used
    }

    /// Whether the block ends with the machine `evm` and the result `result`, where its requests
    /// are `requests`.
    pub open spec fn ends_with(
        self,
        requests: Requests,
        evm: E,
        result: BlockExecutionResult<R::Receipt, E::StateChanges>,
    ) -> bool {
        &&& evm == self.machine()
        &&& result.requests == requests
        &&& result.totals() == self.totals()
    }

    /// Consumes the executor and returns its machine, and what the block has collected together
    /// with the requests `requests`.
    pub fn into_result(self, requests: Requests) -> (parts: (
        E,
        BlockExecutionResult<R::Receipt, E::StateChanges>,
    ))
        ensures
            self.ends_with(requests, parts.0, parts.1),
    {
        (
            self.evm,
            BlockExecutionResult {
                receipts: self.receipts,
                requests,
                gas_used: self.gas_used,
                state_changes: self.state_changes,
                gas_used_per_chain: self.gas_used_per_chain,
            },
        )
    }

    /// Whether the gas that the block has spent is within its gas limit.
    pub fn is_within_gas_limit(&self) -> (within: bool)
        requires
            self.machine().env().has_block(),
        ensures
            within == (self.available_gas() >= 0),
    {
        self.gas_used <= self.evm.block().gas_limit
    }

    /// Whether the counters have room for the gas of `result`.
    pub fn has_room(&self, result: &ExecutionResult<E::HaltReason>) -> (fits: bool)
        ensures
            fits == self.totals().has_room(*result),
    {
        result.gas_used <= u64::MAX - self.gas_used && gas::gas_fits(
            &self.gas_used_per_chain,
            &result.gas_used_per_chain,
        )
    }
}

impl<'a, E: Evm, Spec: EthExecutorSpec, R: ReceiptBuilder<E>, H> EthBlockExecutor<'a, E, Spec, R, H> {
    /// Whether the block clears empty accounts: from Spurious Dragon on.
    pub open spec fn clears_state(self) -> bool {
        self.schedule().activation(EthereumHardfork::SpuriousDragon).is_active_at_block(
            primitives::saturated(self.machine().env().block().number@),
        )
    }

    /// Returns what is to be done before the transactions of the block.
    ///
    /// The state clear flag is set if the block is after the Spurious Dragon hardfork.
    pub fn apply_pre_execution_changes(&self) -> (run: PreExecutionRun)
        requires
            self.machine().env().has_block(),
        ensures
            exists|order: Seq<u64>|
                {
                    &&& order.no_duplicates()
                    &&& order.to_set() == self.contexts()@.dom()
                    &&& run@ == #[trigger] pre_execution_steps(
                        self.clears_state(),
                        order,
                        self.contexts()@,
                    )
                },
    {
        let number: u64 = self.evm.block().number.saturating_to();
        let state_clear_flag = self.spec.is_spurious_dragon_active_at_block(number);
        let mut steps: Vec<PreExecutionStep> = Vec::new();
        steps.push(PreExecutionStep::StateClearFlag(state_clear_flag));
        let chain_ids: Vec<u64> = chain_ids(&self.ctx);
        let mut i: usize = 0;
        while i < chain_ids.len()
            invariant
                i <= chain_ids@.len(),
                chain_ids@.to_set() == self.ctx@.dom(),
                steps@ == pre_execution_steps(
                    state_clear_flag,
                    chain_ids@.take(i as int),
                    self.ctx@,
                ),
            decreases chain_ids@.len() - i,
        {
            let chain_id: u64 = chain_ids[i];
            assert(chain_ids@.to_set().contains(chain_id));
            let ctx = self.ctx.get(&chain_id).unwrap();
            steps.push(
                PreExecutionStep::Blockhashes { chain_id, parent_hash: ctx.parent_hash },
            );
            steps.push(
                PreExecutionStep::BeaconRoot {
                    chain_id,
                    parent_beacon_block_root: ctx.parent_beacon_block_root,
                },
            );
            i += 1;
        }
        assert(chain_ids@.take(i as int) =~= chain_ids@);
        assert(steps@ == pre_execution_steps(self.clears_state(), chain_ids@, self.contexts()@));
        let run = PreExecutionRun { steps, done: 0 };
        assert(run@ =~= steps@);
        run
    }
}

impl<'a, E: Transact, Spec, R: ReceiptBuilder<E>, H> EthBlockExecutor<'a, E, Spec, R, H> {
    /// Executes a transaction, and takes it into the block where `f` decides so by its result.
    /// Returns the gas that it spent where it was taken in.
    ///
    /// The gas limit of the transaction and the gas that the block has spent before must together
    /// not exceed the gas limit of the block. A transaction for which they do is refused before
    /// it is executed.
    pub fn execute_transaction_with_commit_condition<
        X: IntoTxEnv<E::Tx>,
        F: FnOnce(&ExecutionResult<E::HaltReason>) -> CommitChanges,
    >(&mut self, tx: ExecutableTx<'_, R::Transaction, X>, f: F) -> (outcome: Result<
        Option<u64>,
        BlockExecutionError<E::Error>,
    >) where E::DB: MultiDatabaseCommit<E::State>, H: OnStateHook<E::State>
        requires
            old(self).machine().env().has_block(),
            old(self).available_gas() >= 0,
            forall|result: &ExecutionResult<E::HaltReason>| call_requires(f, (result,)),
        ensures
            old(self).attempts(tx.gas_limit, outcome, *final(self)),
            tx.gas_limit > old(self).available_gas() ==> *final(self) == *old(self) && outcome
                == Err::<Option<u64>, BlockExecutionError<E::Error>>(
                BlockExecutionError::Validation(
                    BlockValidationError::TransactionGasLimitMoreThanAvailableBlockGas {
                        transaction_gas_limit: tx.gas_limit,
                        block_available_gas: old(self).available_gas() as u64,
                    },
                ),
            ),
            tx.gas_limit <= old(self).available_gas() ==> exists|
                evm: &mut E,
                executed: Result<
                    ResultAndState<E::HaltReason, E::State, E::StateChanges>,
                    E::Error,
                >,
            |
                {
                    &&& *evm == old(self).machine()
                    &&& #[trigger] call_ensures(E::transact::<X>, (evm, tx.env), executed)
                    &&& match executed {
                        Err(error) => {
                            &&& outcome == Err::<Option<u64>, _>(
                                BlockExecutionError::Evm { hash: tx.hash, error },
                            )
                            &&& old(self).is_kept_by(*final(self))
                            &&& final(self).machine() == *final(evm)
                        },
                        Ok(done) => exists|decision: CommitChanges|
                            {
                                &&& #[trigger] call_ensures(f, (&done.result,), decision)
                                &&& if decision is No {
                                    &&& outcome == Ok::<_, BlockExecutionError<E::Error>>(
                                        None::<u64>,
                                    )
                                    &&& old(self).is_kept_by(*final(self))
                                    &&& final(self).machine() == *final(evm)
                                } else if !old(self).totals().has_room(done.result) {
                                    &&& outcome == Err::<
                                        Option<u64>,
                                        BlockExecutionError<E::Error>,
                                    >(BlockExecutionError::GasOverflow)
                                    &&& old(self).is_kept_by(*final(self))
                                    &&& final(self).machine() == *final(evm)
                                } else {
                                    &&& outcome == Ok::<_, BlockExecutionError<E::Error>>(
                                        Some(done.result.gas_used),
                                    )
                                    &&& old(self).takes_in(
                                        *tx.tx,
                                        *final(evm),
                                        done,
                                        *final(self),
                                    )
                                    &&& final(self).machine().precompiles()
                                        == final(evm).precompiles()
                                    &&& final(self).machine().inspector()
                                        == final(evm).inspector()
                                    &&& exists|db: &mut E::DB|
                                        {
                                            &&& *db == old(self).machine().db()
                                            &&& *final(db) == final(self).machine().db()
                                            &&& #[trigger] call_ensures(
                                                <E::DB as MultiDatabaseCommit<
                                                    E::State,
                                                >>::commit_multi,
                                                (db, done.state),
                                                (),
                                            )
                                        }
                                    &&& match old(self).hook() {
                                        None => final(self).hook() is None,
                                        Some(before) => exists|told: &mut H|
                                            {
                                                &&& *told == before
                                                &&& final(self).hook() == Some(*final(told))
                                                &&& #[trigger] call_ensures(
                                                    <H as OnStateHook<E::State>>::on_state,
                                                    (
                                                        told,
                                                        old(self).next_source(),
                                                        &done.state,
                                                    ),
                                                    (),
                                                )
                                            },
                                    }
                                }
                            },
                    }
                },
    {
        let block_available_gas: u64 = self.evm.block().gas_limit - self.gas_used;
        if tx.gas_limit > block_available_gas {
            return Err(
                BlockExecutionError::from(
                    BlockValidationError::TransactionGasLimitMoreThanAvailableBlockGas {
                        transaction_gas_limit: tx.gas_limit,
                        block_available_gas,
                    },
                ),
            );
        }
        let executed = match self.evm.transact(tx.env) {
            Ok(executed) => executed,
            Err(error) => {
                return Err(BlockExecutionError::evm(error, tx.hash));
            },
        };
        if !f(&executed.result).should_commit() {
            return Ok(None);
        }
        if !self.has_room(&executed.result) {
            return Err(BlockExecutionError::GasOverflow);
        }
        Ok(Some(self.commit_transaction(tx.tx, executed)))
    }
}

/// Ethereum block executor factory.
#[derive(Debug, Copy, Default)]
pub struct EthBlockExecutorFactory<R, Spec = EthSpec> {
    receipt_builder: R,
    spec: Spec,
    evm_factory: EthEvmFactory,
}

impl<R: Clone, Spec: Clone> Clone for EthBlockExecutorFactory<R, Spec> {
    fn clone(&self) -> (factory: Self)
        ensures
            cloned(self.builder(), factory.builder()),
            cloned(self.schedule(), factory.schedule()),
    {
        EthBlockExecutorFactory {
            receipt_builder: self.receipt_builder.clone(),
            spec: self.spec.clone(),
            evm_factory: self.evm_factory,
        }
    }
}

impl<R, Spec> EthBlockExecutorFactory<R, Spec> {
    /// The builder of the receipts.
    pub closed spec fn builder(self) -> R {
        self.receipt_builder
    }

    /// The fork schedule.
    pub closed spec fn schedule(self) -> Spec {
        self.spec
    }

    /// Creates a new [`EthBlockExecutorFactory`] with the given spec and [`ReceiptBuilder`].
    pub fn new(receipt_builder: R, spec: Spec) -> (factory: Self)
        ensures
            factory.builder() == receipt_builder,
            factory.schedule() == spec,
    {
        Self { receipt_builder, spec, evm_factory: EthEvmFactory }
    }

    /// Exposes the receipt builder.
    pub fn receipt_builder(&self) -> (receipt_builder: &R)
        ensures
            *receipt_builder == self.builder(),
    {
        &self.receipt_builder
    }

    /// Exposes the chain specification.
    pub fn spec(&self) -> (spec: &Spec)
        ensures
            *spec == self.schedule(),
    {
        &self.spec
    }

    /// Exposes the factory of the machines.
    pub fn evm_factory(&self) -> (evm_factory: &EthEvmFactory)
        ensures
            *evm_factory == EthEvmFactory,
    {
        &self.evm_factory
    }

    /// Creates an executor over the machine `evm` and the contexts `ctx`, with the schedule and
    /// the receipt builder of the factory.
    pub fn create_executor<'a, DB: MultiDatabase, H>(
        &'a self,
        evm: EthEvm<DB, NoOpInspector>,
        ctx: HashMap<u64, EthBlockExecutionCtx<'a>>,
    ) -> (executor: EthBlockExecutor<'a, EthEvm<DB, NoOpInspector>, &'a Spec, &'a R, H>) where
        R: ReceiptBuilder<EthEvm<DB, NoOpInspector>>,

        ensures
            executor.machine() == evm,
            executor.contexts() == ctx,
            executor.schedule() == &self.schedule(),
            executor.builder() == &self.builder(),
            executor.hook() is None,
            executor.totals() == BlockTotals::<R::Receipt, DB::StateChanges>::empty(),
    {
        EthBlockExecutor::new(evm, ctx, &self.spec, &self.receipt_builder)
    }
}

/// A transaction that a block has taken in: the result of its execution, its state changes and
/// its receipt.
pub ghost struct TakenIn<Receipt, StateChanges, HaltReason> {
    /// The result of the execution.
    pub result: ExecutionResult<HaltReason>,
    /// The state changes.
    pub changes: StateChanges,
    /// The receipt.
    pub receipt: Receipt,
}

/// What a block has collected once it has taken in the transactions of `history`.
pub open spec fn collected<Receipt, StateChanges, HaltReason>(
    history: Seq<TakenIn<Receipt, StateChanges, HaltReason>>,
) -> BlockTotals<Receipt, StateChanges>
    decreases history.len(),
{
    if history.len() == 0 {
        BlockTotals::empty()
    } else {
        let last = history.last();
        collected(history.drop_last()).after(last.result, last.changes, last.receipt)
    }
}

/// The sum of the gas of the transactions of `history`.
pub open spec fn gas_spent<Receipt, StateChanges, HaltReason>(
    history: Seq<TakenIn<Receipt, StateChanges, HaltReason>>,
) -> int
    decreases history.len(),
{
    if history.len() == 0 {
        0
    } else {
        gas_spent(history.drop_last()) + history.last().result.gas_used
    }
}

/// The gas on each chain of all transactions of `history`, one list behind the other.
pub open spec fn gas_lists<Receipt, StateChanges, HaltReason>(
    history: Seq<TakenIn<Receipt, StateChanges, HaltReason>>,
) -> Seq<(u64, u64)>
    decreases history.len(),
{
    if history.len() == 0 {
        Seq::empty()
    } else {
        gas_lists(history.drop_last()) + history.last().result.gas_used_per_chain@
    }
}

/// What a block has collected are the receipts and the state changes of its transactions in their
/// order, one of each for every transaction, and the sums of their gas, over all chains and for
/// each chain.
pub proof fn law_totals_add_up<Receipt, StateChanges, HaltReason>(
    history: Seq<TakenIn<Receipt, StateChanges, HaltReason>>,
)
    requires
        gas_spent(history) <= u64::MAX,
        gas::has_room(Map::empty(), gas_lists(history)),
    ensures
        collected(history).receipts == history.map_values(
            |tx: TakenIn<Receipt, StateChanges, HaltReason>| tx.receipt,
        ),
        collected(history).state_changes == history.map_values(
            |tx: TakenIn<Receipt, StateChanges, HaltReason>| tx.changes,
        ),
        collected(history).wf(),
        collected(history).gas_used == gas_spent(history),
        collected(history).gas_used_per_chain == gas::count(Map::empty(), gas_lists(history)),
    decreases history.len(),
{
    if history.len() == 0 {
        assert(gas::count(Map::empty(), gas_lists(history)) =~= Map::<u64, u64>::empty());
    } else {
        gas::law_count_in_steps(
            Map::empty(),
            gas_lists(history.drop_last()),
            history.last().result.gas_used_per_chain@,
        );
        law_totals_add_up(history.drop_last());
    }
}

/// The history of a block determines what it has collected: to take a transaction in extends the
/// history by that transaction.
pub proof fn law_taking_in_extends_the_history<'a, E: Evm, Spec, R: ReceiptBuilder<E>, H>(
    history: Seq<TakenIn<R::Receipt, E::StateChanges, E::HaltReason>>,
    before: EthBlockExecutor<'a, E, Spec, R, H>,
    tx: R::Transaction,
    machine: E,
    executed: ResultAndState<E::HaltReason, E::State, E::StateChanges>,
    after: EthBlockExecutor<'a, E, Spec, R, H>,
)
    requires
        before.totals() == collected(history),
        before.takes_in(tx, machine, executed, after),
    ensures
        exists|receipt: R::Receipt|
            after.totals() == #[trigger] collected(
                history.push(
                    TakenIn { result: executed.result, changes: executed.state_changes, receipt },
                ),
            ),
{
    let receipt = after.totals().receipts.last();
    let taken_in = TakenIn { result: executed.result, changes: executed.state_changes, receipt };
    assert(history.push(taken_in).drop_last() =~= history);
    assert(after.totals() == collected(history.push(taken_in)));
}

/// The gas of a block never passes its limit over a run: with `executors` the executor as it was at
/// first and as each attempt left it, where no machine reports more gas than the gas limit of the
/// transaction, the gas that the block has spent never decreases and stays within the limit,
/// whatever the outcomes are.
pub proof fn law_gas_stays_within_the_block<'a, E: Evm, Spec, R: ReceiptBuilder<E>, H>(
    executors: Seq<EthBlockExecutor<'a, E, Spec, R, H>>,
    gas_limits: Seq<u64>,
    outcomes: Seq<Result<Option<u64>, BlockExecutionError<E::Error>>>,
)
    requires
        executors.len() == outcomes.len() + 1,
        gas_limits.len() == outcomes.len(),
        executors[0].available_gas() >= 0,
        forall|i: int|
            0 <= i < outcomes.len() ==> (#[trigger] executors[i]).attempts(
                gas_limits[i],
                outcomes[i],
                executors[i + 1],
            ),
        forall|i: int|
            0 <= i < outcomes.len() ==> (#[trigger] outcomes[i] matches Ok(Some(gas_used))
                ==> gas_used <= gas_limits[i]),
    ensures
        forall|i: int, j: int|
            0 <= i <= j < executors.len() ==> {
                &&& (#[trigger] executors[i]).totals().gas_used <= (
                #[trigger] executors[j]).totals().gas_used
                &&& executors[j].available_gas() >= 0
                &&& executors[j].machine().env() == executors[i].machine().env()
            },
    decreases outcomes.len(),
{
    if outcomes.len() > 0 {
        let n = outcomes.len() - 1;
        let earlier = executors.drop_last();
        assert forall|i: int| 0 <= i < n implies (#[trigger] earlier[i]).attempts(
            gas_limits.drop_last()[i],
            outcomes.drop_last()[i],
            earlier[i + 1],
        ) by {
            assert(executors[i].attempts(gas_limits[i], outcomes[i], executors[i + 1]));
        }
        law_gas_stays_within_the_block(earlier, gas_limits.drop_last(), outcomes.drop_last());
        assert(executors[n].attempts(gas_limits[n], outcomes[n], executors[n + 1]));
        assert(earlier[n] == executors[n]);
        assert(executors[n + 1].available_gas() >= 0);
        assert forall|i: int, j: int| 0 <= i <= j < executors.len() implies {
            &&& (#[trigger] executors[i]).totals().gas_used <= (
            #[trigger] executors[j]).totals().gas_used
            &&& executors[j].available_gas() >= 0
            &&& executors[j].machine().env() == executors[i].machine().env()
        } by {
            if i <= n {
                assert(earlier[i].totals().gas_used <= earlier[n].totals().gas_used);
                if j <= n {
                    assert(earlier[i].totals().gas_used <= earlier[j].totals().gas_used);
                }
            }
        }
    }
}

/// The transactions of a block are reported under the numbers 0, 1, 2 and so on without gaps: one
/// that is taken in is reported under the next number, and another attempt uses no number up.
pub proof fn law_reports_have_no_gaps<'a, E: Evm, Spec, R: ReceiptBuilder<E>, H>(
    before: EthBlockExecutor<'a, E, Spec, R, H>,
    gas_limit: u64,
    outcome: Result<Option<u64>, BlockExecutionError<E::Error>>,
    after: EthBlockExecutor<'a, E, Spec, R, H>,
    number: usize,
)
    requires
        before.attempts(gas_limit, outcome, after),
        before.next_source() == StateChangeSource::Transaction(number),
        before.totals().receipts.len() < usize::MAX,
    ensures
        outcome matches Ok(Some(_)) ==> after.next_source() == StateChangeSource::Transaction(
            (number + 1) as usize,
        ),
        !(outcome matches Ok(Some(_))) ==> after.next_source() == before.next_source(),
{
}

/// A clone of a factory has the same receipt builder and the same schedule, where those of the
/// factory have no clones but equal ones.
pub proof fn law_clone_keeps_builder_and_schedule<R: Clone, Spec: Clone>(
    factory: EthBlockExecutorFactory<R, Spec>,
    copy: EthBlockExecutorFactory<R, Spec>,
)
    requires
        call_ensures(
            <EthBlockExecutorFactory<R, Spec> as Clone>::clone,
            (&factory,),
            copy,
        ),
        forall|a: R, b: R| #[trigger] cloned(a, b) ==> a == b,
        forall|a: Spec, b: Spec| #[trigger] cloned(a, b) ==> a == b,
    ensures
        copy.builder() == factory.builder(),
        copy.schedule() == factory.schedule(),
{
}

} // verus!
