//! The execution of blocks.

use std::cell::RefCell;
use std::collections::HashMap;
use std::rc::Rc;

use alloy_eips::eip7685::Requests;
use alloy_evm::balances::BalanceIncrements;
use alloy_evm::env::{BlockEnv, CfgEnv, EvmEnv};
use alloy_evm::error::{BlockExecutionError, BlockValidationError};
use alloy_evm::eth::block::{
    CommitChanges, EthBlockExecutionCtx, EthBlockExecutor, EthBlockExecutorFactory, ExecutableTx,
    PreExecutionRun, PreExecutionStep,
};
use alloy_evm::eth::finish::{
    AwaitingDeposits, AwaitingIncrements, AwaitingPayout, AwaitingReport, DaoFork, DrainStep,
    ReportStep, RequestsStep,
};
use alloy_evm::eth::hook::{NoStateHook, OnStateHook, StateChangeSource};
use alloy_evm::eth::receipts::{ReceiptBuilder, ReceiptBuilderCtx};
use alloy_evm::eth::{EthEvm, EthEvmBuilder, EthEvmContext, EthEvmFactory, ExecuteEvm};
use alloy_evm::evm::{Evm, EvmFactory, MultiDatabase, MultiDatabaseCommit, NoOpInspector};
use alloy_evm::hardforks::{EthExecutorSpec, EthSpec, EthereumHardfork, ForkCondition};
use alloy_evm::precompiles::SpecId;
use alloy_evm::primitives::{Address, ChainAddress, U256};
use alloy_evm::result::{ExecutionResult, ExecutionStatus, ResultAndState};
use alloy_evm::tx::TxEnv;

/// What is run, reported, written into receipts and committed, in its order.
type Events = Rc<RefCell<Vec<String>>>;

/// A database over which each transaction spends its nonce in gas, on chain 1, and one more on
/// chain 2. Transactions of type 9 fail.
#[derive(Debug, Default)]
struct Counting {
    events: Events,
    committed: Vec<Vec<u64>>,
}

impl MultiDatabase for Counting {
    type Error = &'static str;
    type Account = ();
    type State = Vec<u64>;
    type StateChanges = u64;
}

impl MultiDatabaseCommit<Vec<u64>> for Counting {
    fn commit_multi(&mut self, state: Vec<u64>) {
        self.events.borrow_mut().push(format!("commit {state:?}"));
        self.committed.push(state);
    }
}

impl<I, P> ExecuteEvm<I, P> for Counting {
    fn transact(
        ctx: &EthEvmContext<Self>,
        _precompiles: &P,
    ) -> Result<ResultAndState<String, Vec<u64>, u64>, &'static str> {
        ctx.db.events.borrow_mut().push("run".to_string());
        if ctx.tx.tx_type == 9 {
            return Err("nonce too low");
        }
        let gas_used = ctx.tx.nonce;
        Ok(ResultAndState {
            result: ExecutionResult {
                status: ExecutionStatus::Success,
                gas_used,
                gas_used_per_chain: vec![(1, gas_used), (2, 1)],
                output: vec![],
                logs: vec![],
            },
            state: vec![gas_used],
            state_changes: gas_used.wrapping_mul(10),
        })
    }

    fn inspect_tx(
        ctx: &EthEvmContext<Self>,
        precompiles: &P,
        _inspector: &mut I,
    ) -> Result<ResultAndState<String, Vec<u64>, u64>, &'static str> {
        <Self as ExecuteEvm<I, P>>::transact(ctx, precompiles)
    }

    fn system_call_with_caller(
        _ctx: &EthEvmContext<Self>,
        _precompiles: &P,
        _caller: Address,
        _contract: Address,
        _data: Vec<u8>,
    ) -> Result<ResultAndState<String, Vec<(Address, ())>, u64>, &'static str> {
        Err("no system contracts")
    }
}

/// A hook that notes what it is told.
#[derive(Debug)]
struct Notes(Events);

impl OnStateHook<Vec<u64>> for Notes {
    fn on_state(&mut self, source: StateChangeSource, state: &Vec<u64>) {
        self.0.borrow_mut().push(format!("{source:?} {state:?}"));
    }
}

/// Makes receipts of a transaction, its gas, the gas up to it and its state.
#[derive(Debug, Clone, PartialEq)]
struct Receipts;

impl<E: Evm<State = Vec<u64>>> ReceiptBuilder<E> for Receipts {
    type Transaction = &'static str;
    type Receipt = (&'static str, u64, u64, Vec<u64>);

    fn build_receipt(
        &self,
        ctx: ReceiptBuilderCtx<'_, &'static str, E>,
    ) -> (&'static str, u64, u64, Vec<u64>) {
        (*ctx.tx, ctx.result.gas_used, ctx.cumulative_gas_used, ctx.state.clone())
    }
}

/// A schedule with the DAO fork at block 7, Spurious Dragon at block 8 and Prague at time 100.
#[derive(Debug, Clone, PartialEq)]
struct Schedule;

impl EthExecutorSpec for Schedule {
    fn activation(&self, fork: EthereumHardfork) -> ForkCondition {
        self.ethereum_fork_activation(fork)
    }

    fn ethereum_fork_activation(&self, fork: EthereumHardfork) -> ForkCondition {
        match fork {
            EthereumHardfork::Dao => ForkCondition::Block(7),
            EthereumHardfork::SpuriousDragon => ForkCondition::Block(8),
            EthereumHardfork::Prague => ForkCondition::Timestamp(100),
        }
    }
}

type Machine = EthEvm<Counting, NoOpInspector>;
type Executor<'a> = EthBlockExecutor<'a, Machine, Schedule, Receipts, Notes>;

fn machine(number: u64, timestamp: u64) -> Machine {
    let block = BlockEnv {
        number: U256::from_u64(number),
        beneficiary: [0; 20],
        timestamp: U256::from_u64(timestamp),
        gas_limit: 100,
        basefee: 0,
        difficulty: U256::from_u64(0),
        prevrandao: None,
        blob_excess_gas_and_price: None,
    };
    let cfg = CfgEnv { chain_id: 5, ..CfgEnv::new_with_spec(SpecId::Prague) };
    EthEvmFactory
        .create_evm_env(Counting::default(), EvmEnv::new(cfg, [(5, block)].into_iter().collect()))
}

fn context(hash: u8, root: Option<[u8; 32]>) -> EthBlockExecutionCtx<'static> {
    EthBlockExecutionCtx {
        parent_hash: [hash; 32],
        parent_beacon_block_root: root,
        ommers: &[],
        withdrawals: None,
    }
}

fn executor<'a>(number: u64, timestamp: u64) -> Executor<'a> {
    let ctx: HashMap<u64, EthBlockExecutionCtx<'a>> =
        [(5, context(0x55, None)), (6, context(0x66, Some([1; 32])))].into_iter().collect();
    EthBlockExecutor::new(machine(number, timestamp), ctx, Schedule, Receipts)
}

fn transaction<'t>(
    name: &'t &'static str,
    gas_limit: u64,
    gas_used: u64,
) -> ExecutableTx<'t, &'static str, TxEnv> {
    ExecutableTx {
        tx: name,
        env: TxEnv { nonce: gas_used, ..TxEnv::default() },
        gas_limit,
        hash: [0xaa; 32],
    }
}

fn runs(evm: &Machine) -> usize {
    evm.ctx().db.events.borrow().iter().filter(|event| *event == "run").count()
}

fn keep(_result: &ExecutionResult<String>) -> CommitChanges {
    CommitChanges::Yes
}

#[test]
fn transactions_are_taken_in_one_after_the_other() {
    let mut block = executor(1, 1);
    let first = block.execute_transaction_with_commit_condition(transaction(&"a", 60, 30), keep);
    assert_eq!(first.unwrap(), Some(30));
    let second = block.execute_transaction_with_commit_condition(transaction(&"b", 70, 50), keep);
    assert_eq!(second.unwrap(), Some(50));
    assert_eq!(block.receipts(), &vec![("a", 30, 30, vec![30]), ("b", 50, 80, vec![50])]);
    assert_eq!(runs(block.evm()), 2);

    let (evm, result) = block.into_result(Requests::default());
    assert_eq!(runs(&evm), 2);
    assert_eq!(result.gas_used, 80);
    assert_eq!(result.state_changes, vec![300, 500]);
    assert_eq!(result.gas_used_per_chain, [(1, 80), (2, 2)].into_iter().collect());
    assert_eq!(result.receipts.len(), result.state_changes.len());
}

#[test]
fn what_is_taken_in_is_reported_and_then_committed() {
    let mut block = executor(1, 1);
    let events = block.evm().ctx().db.events.clone();
    block.set_state_hook(Some(Notes(events.clone())));
    block.execute_transaction_with_commit_condition(transaction(&"a", 60, 30), keep).unwrap();
    let dropped = |_: &ExecutionResult<String>| CommitChanges::No;
    block.execute_transaction_with_commit_condition(transaction(&"b", 60, 9), dropped).unwrap();
    assert!(block
        .execute_transaction_with_commit_condition(transaction(&"c", 99, 1), keep)
        .is_err());
    block.execute_transaction_with_commit_condition(transaction(&"d", 60, 40), keep).unwrap();
    assert_eq!(
        *events.borrow(),
        vec![
            "run",
            "Transaction(0) [30]",
            "commit [30]",
            "run",
            "run",
            "Transaction(1) [40]",
            "commit [40]",
        ]
    );
    assert_eq!(block.evm().ctx().db.committed, vec![vec![30], vec![40]]);
    assert!(block.has_hook());
    block.set_state_hook(None);
    assert!(!block.has_hook());
    block.execute_transaction_with_commit_condition(transaction(&"e", 1, 1), keep).unwrap();
    assert_eq!(events.borrow().last().unwrap(), "commit [1]");
}

#[test]
fn an_executed_transaction_can_be_taken_in_by_itself() {
    let mut block = executor(1, 1);
    let executed = ResultAndState {
        result: ExecutionResult {
            status: ExecutionStatus::Revert,
            gas_used: 12,
            gas_used_per_chain: vec![(5, 10), (6, 2)],
            output: vec![],
            logs: vec![],
        },
        state: vec![8],
        state_changes: 3,
    };
    assert!(block.has_room(&executed.result));
    assert_eq!(block.commit_transaction(&"x", executed), 12);
    let (evm, result) = block.into_result(Requests::default());
    assert_eq!(evm.ctx().db.committed, vec![vec![8]]);
    assert_eq!(result.gas_used, 12);
    assert_eq!(result.gas_used_per_chain, [(5, 10), (6, 2)].into_iter().collect());
    assert_eq!(result.receipts, vec![("x", 12, 12, vec![8])]);
    assert_eq!(result.state_changes, vec![3]);
}

#[test]
fn a_hook_that_does_nothing_can_be_set() {
    let mut block: EthBlockExecutor<'_, Machine, Schedule, Receipts> =
        EthBlockExecutor::new(machine(1, 1), HashMap::new(), Schedule, Receipts);
    block.set_state_hook(Some(NoStateHook));
    let taken = block.execute_transaction_with_commit_condition(transaction(&"a", 60, 30), keep);
    assert_eq!(taken.unwrap(), Some(30));
}

#[test]
fn a_gas_limit_above_what_is_left_is_refused() {
    let mut block = executor(1, 1);
    block.execute_transaction_with_commit_condition(transaction(&"a", 100, 40), keep).unwrap();
    let refused = block.execute_transaction_with_commit_condition(transaction(&"b", 61, 1), keep);
    assert_eq!(
        refused.unwrap_err(),
        BlockExecutionError::Validation(
            BlockValidationError::TransactionGasLimitMoreThanAvailableBlockGas {
                transaction_gas_limit: 61,
                block_available_gas: 60,
            }
        )
    );
    assert_eq!(runs(block.evm()), 1);
    assert_eq!(block.receipts().len(), 1);
    let fits = block.execute_transaction_with_commit_condition(transaction(&"c", 60, 60), keep);
    assert_eq!(fits.unwrap(), Some(60));
}

#[test]
fn an_error_of_the_machine_carries_the_hash() {
    let mut block = executor(1, 1);
    let mut tx = transaction(&"a", 10, 1);
    tx.env.tx_type = 9;
    let failed = block.execute_transaction_with_commit_condition(tx, keep);
    assert_eq!(
        failed.unwrap_err(),
        BlockExecutionError::Evm { hash: [0xaa; 32], error: "nonce too low" }
    );
    assert!(block.receipts().is_empty());
}

#[test]
fn a_transaction_that_is_not_kept_leaves_no_trace() {
    let mut block = executor(1, 1);
    let dropped = block.execute_transaction_with_commit_condition(
        transaction(&"a", 50, 20),
        |result: &ExecutionResult<String>| {
            assert_eq!(result.gas_used(), 20);
            CommitChanges::No
        },
    );
    assert!(dropped.unwrap().is_none());
    assert_eq!(runs(block.evm()), 1);
    let (_, result) = block.into_result(Requests::default());
    assert!(result.receipts.is_empty());
    assert!(result.state_changes.is_empty());
    assert_eq!(result.gas_used, 0);
    assert!(result.gas_used_per_chain.is_empty());
}

#[test]
fn gas_that_overflows_the_counters_is_reported() {
    let mut block = executor(1, 1);
    block.execute_transaction_with_commit_condition(transaction(&"a", 50, 20), keep).unwrap();
    let huge = transaction(&"b", 50, u64::MAX - 10);
    let overflow = block.execute_transaction_with_commit_condition(huge, keep);
    assert_eq!(overflow.unwrap_err(), BlockExecutionError::GasOverflow);
    assert_eq!(block.receipts().len(), 1);
}

#[test]
fn a_block_can_be_over_its_gas_limit() {
    let mut block = executor(1, 1);
    assert!(block.is_within_gas_limit());
    block.execute_transaction_with_commit_condition(transaction(&"a", 50, 100), keep).unwrap();
    assert!(block.is_within_gas_limit());
    block.execute_transaction_with_commit_condition(transaction(&"b", 0, 1), keep).unwrap();
    assert!(!block.is_within_gas_limit());
}

#[test]
fn commit_changes_says_whether_to_commit() {
    assert!(CommitChanges::Yes.should_commit());
    assert!(!CommitChanges::No.should_commit());
}

fn steps(mut run: PreExecutionRun) -> Vec<PreExecutionStep> {
    let mut steps = vec![];
    while let Some(step) = run.next_step() {
        steps.push(step);
        run = run.taken::<&str>(Ok(())).unwrap();
    }
    steps
}

fn clears(run: PreExecutionRun) -> bool {
    match run.next_step() {
        Some(PreExecutionStep::StateClearFlag(clear)) => clear,
        _ => panic!("the flag does not come first"),
    }
}

#[test]
fn pre_execution_calls_come_in_pairs_behind_the_flag() {
    let steps = steps(executor(8, 1).apply_pre_execution_changes());
    assert_eq!(steps.len(), 5);
    assert!(matches!(steps[0], PreExecutionStep::StateClearFlag(true)));
    assert!(!clears(executor(7, 1).apply_pre_execution_changes()));
    let mut seen = vec![];
    for pair in steps[1..].chunks(2) {
        match (pair[0], pair[1]) {
            (
                PreExecutionStep::Blockhashes { chain_id, parent_hash },
                PreExecutionStep::BeaconRoot { chain_id: same, parent_beacon_block_root },
            ) => {
                assert_eq!(chain_id, same);
                seen.push((chain_id, parent_hash, parent_beacon_block_root));
            }
            _ => panic!("not a pair"),
        }
    }
    seen.sort();
    assert_eq!(seen, vec![(5, [0x55; 32], None), (6, [0x66; 32], Some([1; 32]))]);
}

#[test]
fn a_block_number_beyond_64_bits_saturates() {
    let mut block = executor(1, 1);
    block.evm_mut().ctx_mut().block.get_mut(&5).unwrap().number = U256 { limbs: [0, 1, 0, 0] };
    assert!(clears(block.apply_pre_execution_changes()));
}

fn collecting<'a>(block: Executor<'a>) -> AwaitingDeposits<'a, Machine, Schedule, Receipts, Notes> {
    match block.finish() {
        RequestsStep::Collect(next) => next,
        RequestsStep::Skip(_) => panic!("no requests are collected"),
    }
}

fn skipping<'a>(block: Executor<'a>) -> AwaitingIncrements<'a, Machine, Schedule, Receipts, Notes> {
    match block.finish() {
        RequestsStep::Collect(_) => panic!("requests are collected"),
        RequestsStep::Skip(next) => next,
    }
}

fn dao() -> DaoFork {
    DaoFork { accounts: vec![[1; 20], [2; 20]], beneficiary: [0xbf; 20] }
}

fn paying<'a>(block: Executor<'a>) -> AwaitingPayout<'a, Machine, Schedule, Receipts, Notes> {
    match skipping(block).balance_increments(BalanceIncrements::new(), dao()) {
        DrainStep::Drain(_) => panic!("accounts are drained"),
        DrainStep::Skip(next) => next,
    }
}

#[test]
fn requests_are_collected_from_prague_on() {
    let before = skipping(executor(1, 99));
    assert!(before.requests.is_empty());
    collecting(executor(1, 100));
}

#[test]
fn deposits_go_before_the_requests_of_system_contracts() {
    let next = collecting(executor(1, 100)).deposits(Ok(vec![7, 8])).unwrap();
    let mut system = Requests::default();
    system.push_request_with_type(1, vec![9]);
    system.push_request_with_type(2, vec![10]);
    let next = next.system_requests(Ok(system)).unwrap();
    let requests: Vec<Vec<u8>> = next.requests.iter().map(|request| request.to_vec()).collect();
    assert_eq!(requests, vec![vec![0, 7, 8], vec![1, 9], vec![2, 10]]);
}

#[test]
fn a_block_without_deposits_has_no_request_for_them() {
    let next = collecting(executor(1, 100)).deposits(Ok(vec![])).unwrap();
    assert!(next.requests.is_empty());
    let next = next.system_requests(Ok(Requests::default())).unwrap();
    assert!(next.requests.is_empty());
}

#[test]
fn errors_about_requests_end_the_block() {
    let decode = BlockValidationError::DepositRequestDecode("bad log".to_string());
    let failed = collecting(executor(1, 100)).deposits(Err(decode.clone()));
    assert_eq!(failed.err(), Some(BlockExecutionError::Validation(decode)));

    let call = BlockExecutionError::from(BlockValidationError::SystemContractCall(
        "reverted".to_string(),
    ));
    let next = collecting(executor(1, 100)).deposits(Ok(vec![1])).unwrap();
    assert_eq!(next.system_requests(Err(call.clone())).err(), Some(call));
}

#[test]
fn the_context_of_the_own_chain_is_paid() {
    let block = skipping(executor(1, 1));
    assert_eq!(block.executor.chain_context().parent_hash, [0x55; 32]);
}

#[test]
fn the_first_block_of_the_dao_fork_drains_its_accounts() {
    let mut rewards = BalanceIncrements::new();
    rewards.add([3; 20], 5);
    rewards.add([0xbf; 20], 2);
    let drain = match skipping(executor(7, 1)).balance_increments(rewards, dao()) {
        DrainStep::Drain(next) => next,
        DrainStep::Skip(_) => panic!("nothing is drained"),
    };
    assert_eq!(
        drain.accounts,
        vec![ChainAddress::new(5, [1; 20]), ChainAddress::new(5, [2; 20])]
    );
    let next = drain.drained::<&str>(Ok(vec![100, 11])).unwrap();
    let mut payouts = next.payouts();
    payouts.sort_by_key(|(account, _)| account.1);
    assert_eq!(
        payouts,
        vec![(ChainAddress::new(5, [3; 20]), 5), (ChainAddress::new(5, [0xbf; 20]), 113)]
    );
}

#[test]
fn other_blocks_drain_nothing() {
    for number in [6, 8] {
        assert!(paying(executor(number, 1)).payouts().is_empty());
    }
}

#[test]
fn a_failed_drain_or_payout_ends_the_block() {
    let failed = BlockValidationError::IncrementBalanceFailed;
    let failed = Some(BlockExecutionError::Validation(failed));
    match skipping(executor(7, 1)).balance_increments(BalanceIncrements::new(), dao()) {
        DrainStep::Drain(next) => assert_eq!(next.drained(Err("disk")).err(), failed),
        DrainStep::Skip(_) => panic!("nothing is drained"),
    }
    assert_eq!(paying(executor(6, 1)).paid(Err("disk")).err(), failed);
}

#[test]
fn the_end_of_a_block_keeps_what_it_collected() {
    let mut block = executor(6, 1);
    block.execute_transaction_with_commit_condition(transaction(&"a", 60, 30), keep).unwrap();
    let mut next = paying(block);
    next.executor.evm_mut().db_mut().committed.push(vec![50]);
    let (evm, result) = match next.paid::<&str>(Ok(())).unwrap() {
        ReportStep::Report(_) => panic!("there is no hook"),
        ReportStep::Skip(evm, result) => (evm, result),
    };
    assert_eq!(evm.ctx().db.committed, vec![vec![30], vec![50]]);
    assert_eq!(result.gas_used, 30);
    assert_eq!(result.receipts, vec![("a", 30, 30, vec![30])]);
    assert_eq!(result.state_changes, vec![300]);
    assert!(result.requests.is_empty());
}

fn reporting<'a>(events: &Events) -> AwaitingReport<'a, Machine, Schedule, Receipts, Notes> {
    let mut block = executor(6, 1);
    block.set_state_hook(Some(Notes(events.clone())));
    match paying(block).paid::<&str>(Ok(())).unwrap() {
        ReportStep::Report(next) => next,
        ReportStep::Skip(..) => panic!("there is a hook"),
    }
}

#[test]
fn the_hook_is_told_of_increased_balances() {
    let events = Events::default();
    let (_, result) = reporting(&events).reported(Ok(vec![1, 2])).unwrap();
    assert_eq!(*events.borrow(), vec!["PostBlock(BalanceIncrements) [1, 2]"]);
    assert_eq!(result.gas_used, 0);
}

#[test]
fn a_failed_report_ends_the_block() {
    let events = Events::default();
    let error = BlockExecutionError::Evm { hash: [0; 32], error: "load" };
    assert_eq!(reporting(&events).reported(Err(error.clone())).err(), Some(error));
    assert!(events.borrow().is_empty());
}

#[test]
fn pre_execution_stops_at_the_first_failure() {
    let mut run = executor(8, 1).apply_pre_execution_changes();
    let mut taken = 0;
    let failed = loop {
        assert!(run.next_step().is_some());
        taken += 1;
        match run.taken(if taken == 3 { Err("reverted") } else { Ok(()) }) {
            Ok(rest) => run = rest,
            Err(error) => break error,
        }
    };
    assert_eq!((taken, failed), (3, "reverted"));
}

#[test]
fn only_the_context_of_the_own_chain_is_read_at_the_end() {
    let block = |ctx: HashMap<u64, EthBlockExecutionCtx<'static>>| -> Executor<'static> {
        EthBlockExecutor::new(machine(7, 1), ctx, Schedule, Receipts)
    };
    let one = block([(5, context(1, None)), (6, context(2, None))].into_iter().collect());
    let other = block([(5, context(1, None)), (0, context(3, None))].into_iter().collect());
    assert_eq!(one.chain_context().parent_hash, other.chain_context().parent_hash);
    let drained = |block: Executor<'static>| {
        match skipping(block).balance_increments(BalanceIncrements::new(), dao()) {
            DrainStep::Drain(next) => next.accounts,
            DrainStep::Skip(_) => panic!("nothing is drained"),
        }
    };
    assert_eq!(drained(one), drained(other));
}

#[test]
fn a_clone_of_a_factory_has_the_same_parts() {
    let factory = EthBlockExecutorFactory::new(vec!["builder"], vec!["schedule"]);
    let copy = factory.clone();
    assert_eq!(copy.receipt_builder(), factory.receipt_builder());
    assert_eq!(copy.spec(), factory.spec());
    assert_eq!(copy.evm_factory(), factory.evm_factory());
}

#[test]
fn a_factory_lends_its_parts_to_executors() {
    let factory = EthBlockExecutorFactory::new(Receipts, Schedule);
    assert_eq!(*factory.receipt_builder(), Receipts);
    assert_eq!(*factory.spec(), Schedule);
    assert_eq!(*factory.evm_factory(), EthEvmFactory);
    let mut block = factory.create_executor::<_, NoStateHook>(machine(8, 1), HashMap::new());
    assert_eq!(*block.spec(), &Schedule);
    let steps = steps(block.apply_pre_execution_changes());
    assert_eq!(steps.len(), 1);
    assert!(matches!(steps[0], PreExecutionStep::StateClearFlag(true)));
    let taken = block.execute_transaction_with_commit_condition(transaction(&"a", 60, 30), keep);
    assert_eq!(taken.unwrap(), Some(30));
    assert_eq!(block.receipts(), &vec![("a", 30, 30, vec![30])]);
}

#[test]
fn mainnet_executors_follow_the_mainnet_schedule() {
    let factory: EthBlockExecutorFactory<Receipts> =
        EthBlockExecutorFactory::new(Receipts, EthSpec::mainnet());
    let block = factory.create_executor::<_, Notes>(machine(2_675_000, 1), HashMap::new());
    assert!(clears(block.apply_pre_execution_changes()));
    let prague =
        factory.create_executor::<_, Notes>(machine(1, 1_746_612_311), HashMap::new());
    assert!(matches!(prague.finish(), RequestsStep::Collect(_)));
    let block = EthEvmBuilder::new(Counting::default(), EvmEnv::default()).build();
    assert_eq!(block.chain_id(), 1);
}
