//! Building machines, and what they know of their environment.

use std::cell::RefCell;
use std::collections::HashMap;

use alloy_evm::env::{find_block, BlockEnv, CfgEnv, EvmEnv};
use alloy_evm::eth::{
    keep_account, EthEvm, EthEvmBuilder, EthEvmContext, EthEvmFactory, ExecuteEvm,
};
use alloy_evm::evm::{
    Evm, EvmFactory, IntoTracer, MultiDatabase, MultiDatabaseCommit, NoOpInspector, Transact,
};
use alloy_evm::precompiles::{PrecompileSpecId, PrecompilesMap, SpecId};
use alloy_evm::primitives::{Address, ChainAddress, U256};
use alloy_evm::result::{ExecutionResult, ExecutionStatus, ResultAndState};
use alloy_evm::tx::{IntoTxEnv, TxEnv, TxKind};
use revm::database_interface::EmptyDB;

fn block(number: u64, gas_limit: u64) -> BlockEnv {
    BlockEnv {
        number: U256::from_u64(number),
        beneficiary: [0; 20],
        timestamp: U256::from_u64(number * 12),
        gas_limit,
        basefee: 7,
        difficulty: U256::from_u64(0),
        prevrandao: None,
        blob_excess_gas_and_price: None,
    }
}

fn env(chain_id: u64, parent_chain_id: Option<u64>, blocks: &[(u64, BlockEnv)]) -> EvmEnv {
    EvmEnv::new(
        CfgEnv { chain_id, parent_chain_id, ..CfgEnv::new_with_spec(SpecId::Prague) },
        blocks.iter().cloned().collect::<HashMap<u64, BlockEnv>>(),
    )
}

/// What was run over a database.
#[derive(Debug, Default)]
struct Record {
    ran: Vec<TxEnv>,
    system_calls: Vec<(Address, Address, Vec<u8>)>,
}

/// A database that records what is run over it.
#[derive(Debug, Default)]
struct Journal {
    record: RefCell<Record>,
    committed: Vec<u32>,
    fail: bool,
}

impl MultiDatabase for Journal {
    type Error = String;
    type Account = &'static str;
    type State = u32;
    type StateChanges = u8;
}

impl MultiDatabaseCommit<u32> for Journal {
    fn commit_multi(&mut self, state: u32) {
        self.committed.push(state);
    }
}

fn outcome<S>(status: ExecutionStatus<String>, state: S) -> ResultAndState<String, S, u8> {
    ResultAndState {
        result: ExecutionResult {
            status,
            gas_used: 21_000,
            gas_used_per_chain: vec![(1, 21_000)],
            output: vec![],
            logs: vec![],
        },
        state,
        state_changes: 4,
    }
}

fn result(status: ExecutionStatus<String>) -> ExecutionResult<String> {
    outcome(status, ()).result
}

/// An inspector that counts how often it is invoked.
#[derive(Debug, Default, PartialEq)]
struct Invocations(u32);

trait Invoke {
    fn invoke(&mut self);
}

impl Invoke for Invocations {
    fn invoke(&mut self) {
        self.0 += 1;
    }
}

impl Invoke for NoOpInspector {
    fn invoke(&mut self) {}
}

impl<I: Invoke, P> ExecuteEvm<I, P> for Journal {
    fn transact(
        ctx: &EthEvmContext<Self>,
        _precompiles: &P,
    ) -> Result<ResultAndState<String, u32, u8>, String> {
        ctx.db.record.borrow_mut().ran.push(ctx.tx.clone());
        if ctx.db.fail {
            return Err("no funds".to_string());
        }
        Ok(outcome(ExecutionStatus::Success, 77))
    }

    fn inspect_tx(
        ctx: &EthEvmContext<Self>,
        precompiles: &P,
        inspector: &mut I,
    ) -> Result<ResultAndState<String, u32, u8>, String> {
        inspector.invoke();
        <Self as ExecuteEvm<I, P>>::transact(ctx, precompiles)
    }

    fn system_call_with_caller(
        ctx: &EthEvmContext<Self>,
        _precompiles: &P,
        caller: Address,
        contract: Address,
        data: Vec<u8>,
    ) -> Result<ResultAndState<String, Vec<(Address, &'static str)>, u8>, String> {
        ctx.db.record.borrow_mut().system_calls.push((caller, contract, data));
        if ctx.db.fail {
            return Err("no code".to_string());
        }
        let beneficiary = [0xbe; 20];
        let mut state = vec![(caller, "caller"), (contract, "contract")];
        if beneficiary != contract {
            state.insert(0, (beneficiary, "beneficiary"));
            state.push(([0xcc; 20], "other"));
        }
        Ok(outcome(ExecutionStatus::Revert, state))
    }
}

fn ran<I, P>(evm: &EthEvm<Journal, I, P>) -> Vec<TxEnv> {
    evm.ctx().db.record.borrow().ran.clone()
}

#[test]
fn test_build() {
    let env = EvmEnv::default();
    let evm = EthEvmBuilder::new(EmptyDB::default(), env).build();
    assert_eq!(evm.chain_id(), 1);
}

#[test]
fn default_environment_is_chain_one_under_prague() {
    let env: EvmEnv = EvmEnv::default();
    assert_eq!(env.chainid(), 1);
    assert_eq!(*env.spec_id(), SpecId::Prague);
    assert_eq!(env.cfg_env().parent_chain_id, None);
    assert!(env.block_env().is_empty());
}

#[test]
fn environment_from_parts_is_the_environment_of_its_parts() {
    let blocks: HashMap<u64, BlockEnv> = [(3, block(5, 6))].into_iter().collect();
    let cfg = CfgEnv::new_with_spec(SpecId::Cancun);
    let made = EvmEnv::new(cfg, blocks.clone());
    let converted = EvmEnv::from((cfg, blocks));
    assert_eq!(made.chainid(), converted.chainid());
    assert_eq!(*made.spec_id(), SpecId::Cancun);
    assert_eq!(*converted.spec_id(), SpecId::Cancun);
    assert_eq!(converted.block_env()[&3].gas_limit, 6);
}

#[test]
fn a_chain_without_a_block_uses_that_of_chain_zero() {
    let blocks: HashMap<u64, BlockEnv> =
        [(0, block(10, 100)), (7, block(20, 200))].into_iter().collect();
    assert_eq!(find_block(&blocks, 7).unwrap().gas_limit, 200);
    assert_eq!(find_block(&blocks, 8).unwrap().gas_limit, 100);
    let alone: HashMap<u64, BlockEnv> = [(7, block(20, 200))].into_iter().collect();
    assert!(find_block(&alone, 8).is_none());

    let evm = EthEvmBuilder::new(
        Journal::default(),
        env(8, None, &[(0, block(10, 100)), (7, block(20, 200))]),
    )
    .build();
    assert_eq!(evm.block().gas_limit, 100);
    assert_eq!(evm.blocks().len(), 2);
}

#[test]
fn finish_gives_the_database_and_the_environment_back() {
    let db = Journal { committed: vec![9], ..Journal::default() };
    let evm = EthEvmBuilder::new(db, env(4, Some(2), &[(4, block(1, 50))]))
        .activate_inspector("tracer")
        .set_inspect(false)
        .build();
    let (db, env) = evm.finish();
    assert_eq!(db.committed, vec![9]);
    assert_eq!(env.chainid(), 4);
    assert_eq!(env.cfg_env().parent_chain_id, Some(2));
    assert_eq!(env.block_env()[&4].gas_limit, 50);
}

#[test]
fn into_db_and_into_env_are_the_halves_of_finish() {
    let make = || {
        EthEvmBuilder::new(
            Journal { committed: vec![3], ..Journal::default() },
            env(4, None, &[(4, block(1, 50))]),
        )
        .build_no_inspector()
    };
    assert_eq!(make().into_db().committed, vec![3]);
    assert_eq!(make().into_env().chainid(), 4);
}

#[test]
fn the_last_inspector_wins() {
    let mut evm = EthEvmBuilder::new(Journal::default(), env(1, None, &[]))
        .inspector(1u8)
        .inspect()
        .inspector("second")
        .build();
    assert_eq!(*evm.inspector_mut(), "second");
    let mut none = EthEvmBuilder::new(Journal::default(), env(1, None, &[]))
        .activate_inspector("dropped")
        .build_no_inspector();
    assert_eq!(*none.inspector_mut(), NoOpInspector);
}

#[test]
fn precompiles_follow_the_rules_and_the_number_of_chains() {
    let mut one = EthEvmBuilder::new(Journal::default(), env(1, None, &[(1, block(1, 1))])).build();
    assert_eq!(one.precompiles_mut().spec_id(), PrecompileSpecId::Prague);
    assert!(!one.precompiles_mut().is_cross_chain());
    assert_eq!(one.precompile_rules(), PrecompileSpecId::Prague);

    let mut none = EthEvmBuilder::new(Journal::default(), env(1, None, &[])).build();
    assert!(!none.precompiles_mut().is_cross_chain());

    let two = env(1, None, &[(1, block(1, 1)), (2, block(1, 1))]);
    let mut several = EthEvmBuilder::new(Journal::default(), two).build_no_inspector();
    assert!(several.precompiles_mut().is_cross_chain());
}

#[test]
fn given_precompiles_override_those_of_the_rules() {
    let given = PrecompilesMap::from_static(PrecompileSpecId::Homestead, true);
    let mut evm = EthEvmBuilder::new(Journal::default(), env(1, None, &[]))
        .precompiles(given)
        .build();
    assert_eq!(evm.precompiles_mut().spec_id(), PrecompileSpecId::Homestead);
    assert!(evm.precompiles_mut().is_cross_chain());
}

#[test]
fn a_machine_is_a_wrapper_of_its_context() {
    let built = EthEvmBuilder::new(Journal::default(), env(6, None, &[])).build();
    assert_eq!(built.ctx().cfg.chain_id, 6);
    let mut wrapped = EthEvm::new(built.into_inner(), true);
    wrapped.ctx_mut().cfg.chain_id = 9;
    assert_eq!(wrapped.chain_id(), 9);
    wrapped.cfg.parent_chain_id = Some(3);
    assert_eq!(wrapped.cfg.chain_id, 9);
    assert_eq!(wrapped.ctx().cfg.parent_chain_id, Some(3));
    wrapped.db_mut().committed.push(1);
    assert_eq!(wrapped.into_inner().ctx.db.committed, vec![1]);
}

#[test]
fn a_new_machine_starts_with_the_default_transaction() {
    let evm = EthEvmBuilder::new(Journal::default(), env(6, None, &[])).build();
    let tx = &evm.ctx().tx;
    assert_eq!(tx.gas_limit, 16_777_216);
    assert_eq!(tx.chain_id, Some(1));
    assert_eq!(tx.caller, ChainAddress::new(0, [0; 20]));
    assert!(tx.chain_ids.is_none());
}

#[test]
fn defaults_agree_with_the_engine() {
    let ours = TxEnv::default();
    let theirs = revm::context::TxEnv::default();
    assert_eq!(ours.tx_type, theirs.tx_type);
    assert_eq!(ours.caller.1, theirs.caller.into_array());
    assert_eq!(ours.gas_limit, theirs.gas_limit);
    assert_eq!(ours.gas_price, theirs.gas_price);
    assert_eq!(callee(&ours).unwrap().1, theirs.kind.to().unwrap().into_array());
    assert_eq!(ours.value.limbs, *theirs.value.as_limbs());
    assert_eq!(ours.data, theirs.data.to_vec());
    assert_eq!(ours.nonce, theirs.nonce);
    assert_eq!(ours.chain_id, theirs.chain_id);
    assert!(ours.access_list.is_empty() && theirs.access_list.0.is_empty());
    assert_eq!(ours.gas_priority_fee, theirs.gas_priority_fee);
    assert!(ours.blob_hashes.is_empty() && theirs.blob_hashes.is_empty());
    assert_eq!(ours.max_fee_per_blob_gas, theirs.max_fee_per_blob_gas);
    assert!(ours.authorization_list.is_empty() && theirs.authorization_list.is_empty());

    let cfg: CfgEnv = CfgEnv::default();
    let engine: revm::context::CfgEnv = revm::context::CfgEnv::default();
    assert_eq!(cfg.chain_id, engine.chain_id);
    assert_eq!(cfg.spec.as_u8(), engine.spec as u8);
    assert_eq!(cfg.tx_chain_id_check, engine.tx_chain_id_check);
    assert_eq!(cfg.limit_contract_code_size, engine.limit_contract_code_size);
    assert_eq!(cfg.limit_contract_initcode_size, engine.limit_contract_initcode_size);
    assert_eq!(cfg.disable_nonce_check, engine.disable_nonce_check);
    assert_eq!(cfg.max_blobs_per_tx, engine.max_blobs_per_tx);
    assert_eq!(cfg.blob_base_fee_update_fraction, engine.blob_base_fee_update_fraction);
    assert_eq!(cfg.tx_gas_limit_cap, engine.tx_gas_limit_cap);
}

fn legacy(caller: u64, callee: u64) -> TxEnv {
    TxEnv {
        chain_id: None,
        caller: ChainAddress::new(caller, [1; 20]),
        kind: TxKind::Call(ChainAddress::new(callee, [2; 20])),
        ..TxEnv::default()
    }
}

fn callee(tx: &TxEnv) -> Option<ChainAddress> {
    match tx.kind {
        TxKind::Call(account) => Some(account),
        TxKind::Create => None,
    }
}

#[test]
fn a_transaction_without_a_chain_goes_to_the_parent_chain() {
    let blocks = [(4, block(1, 1)), (2, block(1, 1))];
    let mut evm = EthEvmBuilder::new(Journal::default(), env(4, Some(2), &blocks)).build();
    assert!(evm.transact(legacy(0, 0)).is_ok());
    let ran = &ran(&evm)[0];
    assert_eq!(ran.chain_id, Some(2));
    assert_eq!(ran.caller, ChainAddress::new(2, [1; 20]));
    assert_eq!(callee(ran), Some(ChainAddress::new(2, [2; 20])));
    let mut reached = ran.chain_ids.clone().unwrap();
    reached.sort();
    assert_eq!(reached, vec![2, 4]);
}

#[test]
fn a_transaction_without_a_chain_and_a_parent_goes_to_the_own_chain() {
    let evm = EthEvmBuilder::new(Journal::default(), env(4, None, &[(4, block(1, 1))])).build();
    let prepared = evm.prepare_transaction(legacy(0, 9));
    assert_eq!(prepared.chain_id, Some(4));
    assert_eq!(prepared.caller.0, 4);
    assert_eq!(callee(&prepared), Some(ChainAddress::new(9, [2; 20])));
    assert_eq!(prepared.chain_ids, Some(vec![4]));
}

#[test]
fn a_transaction_that_names_a_chain_keeps_it() {
    let evm = EthEvmBuilder::new(Journal::default(), env(4, Some(2), &[(4, block(1, 1))])).build();
    let named = TxEnv { chain_id: Some(30), chain_ids: Some(vec![8]), ..legacy(0, 0) };
    let prepared = evm.prepare_transaction(named);
    assert_eq!(prepared.chain_id, Some(30));
    assert_eq!(prepared.caller.0, 0);
    assert_eq!(callee(&prepared).unwrap().0, 0);
    assert_eq!(prepared.chain_ids, Some(vec![4]));
}

#[test]
fn a_creation_without_a_chain_moves_its_caller_only() {
    let evm = EthEvmBuilder::new(Journal::default(), env(4, None, &[])).build();
    let create = TxEnv { kind: TxKind::Create, ..legacy(0, 0) };
    let prepared = evm.prepare_transaction(create);
    assert_eq!(prepared.caller.0, 4);
    assert_eq!(callee(&prepared), None);
    assert_eq!(prepared.chain_ids, Some(vec![]));
}

#[test]
fn to_prepare_twice_changes_nothing_more() {
    let evm = EthEvmBuilder::new(Journal::default(), env(4, Some(2), &[(4, block(1, 1))])).build();
    let once = evm.prepare_transaction(legacy(0, 0));
    let twice = evm.prepare_transaction(once.clone());
    assert_eq!(twice.chain_id, once.chain_id);
    assert_eq!(twice.caller, once.caller);
    assert_eq!(callee(&twice), callee(&once));
    assert_eq!(twice.chain_ids, once.chain_ids);
}

#[test]
fn completion_happens_once() {
    let mut tx = legacy(0, 5).into_tx_env();
    tx.complete(3);
    tx.complete(8);
    assert_eq!(tx.chain_id, Some(3));
    assert_eq!(tx.caller.0, 3);
    assert_eq!(callee(&tx).unwrap().0, 5);
}

#[test]
fn transact_raw_runs_the_transaction_as_it_is() {
    let mut evm = EthEvmBuilder::new(Journal::default(), env(4, Some(2), &[])).build();
    assert!(evm.transact_raw(legacy(0, 0)).is_ok());
    assert_eq!(ran(&evm)[0].chain_id, None);
    assert_eq!(ran(&evm)[0].caller.0, 0);
    assert_eq!(evm.ctx().tx.chain_id, None);
}

#[test]
fn transact_commit_commits_what_succeeded() {
    let mut evm = EthEvmBuilder::new(Journal::default(), env(4, None, &[])).build();
    let result = evm.transact_commit(legacy(0, 0)).unwrap();
    assert_eq!(result.gas_used(), 21_000);
    assert_eq!(evm.db_mut().committed, vec![77]);
}

#[test]
fn transact_commit_commits_nothing_after_an_error() {
    let db = Journal { fail: true, ..Journal::default() };
    let mut evm = EthEvmBuilder::new(db, env(4, None, &[])).build();
    assert_eq!(evm.transact_commit(legacy(0, 0)).unwrap_err(), "no funds");
    assert!(evm.db_mut().committed.is_empty());
}

#[test]
fn the_flag_decides_whether_the_inspector_is_invoked() {
    let build = |inspect: bool| {
        EthEvmBuilder::new(Journal::default(), env(4, None, &[]))
            .inspector(Invocations::default())
            .set_inspect(inspect)
            .build()
    };
    let mut on = build(true);
    assert!(on.transact(legacy(0, 0)).is_ok());
    assert!(on.transact_raw(legacy(0, 0)).is_ok());
    assert_eq!(*on.inspector_mut(), Invocations(2));
    assert_eq!(ran(&on).len(), 2);

    let mut off = build(false);
    assert!(off.transact(legacy(0, 0)).is_ok());
    assert_eq!(*off.inspector_mut(), Invocations(0));
    assert_eq!(ran(&off).len(), 1);

    let mut turned_on = EthEvm::new(off.into_inner(), true);
    assert!(turned_on.transact(legacy(0, 0)).is_ok());
    assert_eq!(*turned_on.inspector_mut(), Invocations(1));
}

#[test]
fn borrowing_from_a_machine_keeps_the_flag() {
    let mut evm = EthEvmBuilder::new(Journal::default(), env(4, None, &[]))
        .activate_inspector(Invocations::default())
        .build();
    evm.db_mut().fail = true;
    evm.inspector_mut().0 = 7;
    let _ = evm.precompiles_mut();
    assert!(evm.transact(legacy(0, 0)).is_err());
    assert_eq!(*evm.inspector_mut(), Invocations(8));
}

#[test]
fn executions_keep_what_the_machine_was_built_with() {
    let db = Journal { committed: vec![9], ..Journal::default() };
    let mut evm = EthEvmBuilder::new(db, env(4, Some(2), &[(4, block(1, 50)), (2, block(9, 60))]))
        .build();
    assert!(evm.transact(legacy(0, 0)).is_ok());
    let call = evm.transact_system_call(
        ChainAddress::new(4, [1; 20]),
        ChainAddress::new(4, [2; 20]),
        vec![],
    );
    assert!(call.is_ok());
    evm.db_mut().fail = true;
    assert!(evm.transact_raw(legacy(0, 0)).is_err());
    let (db, env) = evm.finish();
    assert_eq!(db.committed, vec![9]);
    assert_eq!(env.chainid(), 4);
    assert_eq!(env.cfg_env().parent_chain_id, Some(2));
    assert_eq!(env.block_env()[&4].gas_limit, 50);
    assert_eq!(env.block_env()[&2].gas_limit, 60);
}

#[test]
fn a_legacy_transaction_is_prepared_as_one_of_the_default_chain() {
    let evm = EthEvmBuilder::new(Journal::default(), env(4, Some(2), &[(4, block(1, 1))])).build();
    let written = TxEnv { chain_id: Some(2), ..legacy(2, 2) };
    let one = evm.prepare_transaction(legacy(0, 0));
    let other = evm.prepare_transaction(written);
    assert_eq!(one.chain_id, other.chain_id);
    assert_eq!(one.caller, other.caller);
    assert_eq!(callee(&one), callee(&other));
    assert_eq!(one.chain_ids, other.chain_ids);
}

#[test]
fn a_system_call_keeps_only_the_contract_in_the_state() {
    let mut evm = EthEvmBuilder::new(Journal::default(), env(4, None, &[])).build();
    let caller = ChainAddress::new(4, [3; 20]);
    let contract = ChainAddress::new(4, [4; 20]);
    let done = evm.transact_system_call(caller, contract, vec![5]).unwrap();
    assert_eq!(done.state, vec![([4; 20], "contract")]);
    assert_eq!(done.state_changes, 4);
    assert_eq!(done.result.gas_used(), 21_000);

    let beneficiary = ChainAddress::new(4, [0xbe; 20]);
    let done = evm.transact_system_call(caller, beneficiary, vec![]).unwrap();
    assert_eq!(done.state, vec![([0xbe; 20], "contract")]);

    evm.db_mut().fail = true;
    assert_eq!(evm.transact_system_call(caller, contract, vec![]).unwrap_err(), "no code");
}

#[test]
fn accounts_are_kept_by_their_address() {
    let mut state = vec![([1; 20], 1), ([2; 20], 2), ([1; 20], 3), ([3; 20], 4)];
    keep_account(&mut state, &[1; 20]);
    assert_eq!(state, vec![([1; 20], 1), ([1; 20], 3)]);
    keep_account(&mut state, &[9; 20]);
    assert!(state.is_empty());
}

#[test]
fn a_system_call_drops_the_chains_of_its_accounts() {
    let mut evm = EthEvmBuilder::new(Journal::default(), env(4, None, &[])).build();
    let caller = ChainAddress::new(1, [3; 20]);
    let contract = ChainAddress::new(2, [4; 20]);
    let done = evm.transact_system_call(caller, contract, vec![5]).unwrap();
    assert!(!done.result.is_success());
    let own = evm
        .transact_system_call(
            ChainAddress::new(4, [3; 20]),
            ChainAddress::new(4, [4; 20]),
            vec![5],
        )
        .unwrap();
    assert_eq!(own.state, done.state);
    let calls = evm.ctx().db.record.borrow().system_calls.clone();
    assert_eq!(calls, vec![([3; 20], [4; 20], vec![5]); 2]);
}

#[test]
fn inspection_goes_on_after_a_success() {
    let mut evm = EthEvmBuilder::new(Journal::default(), env(4, None, &[])).build();
    assert!(evm.should_continue(&result(ExecutionStatus::Success)));
    assert!(!evm.should_continue(&result(ExecutionStatus::Revert)));
    assert!(!evm.should_continue(&result(ExecutionStatus::Halt("OutOfGas".to_string()))));
}

#[test]
fn a_builder_describes_itself() {
    let given = PrecompilesMap::from_static(PrecompileSpecId::Homestead, true);
    let builder = EthEvmBuilder::new(Journal::default(), env(4, None, &[(4, block(1, 50))]))
        .activate_inspector(Invocations(3));
    let (_, _, _, _, overridden) = builder.described();
    assert!(!overridden);
    let builder = builder.precompiles(given);
    let (db, blocks, inspector, inspect, overridden) = builder.described();
    assert!(db.committed.is_empty());
    assert_eq!(blocks[&4].gas_limit, 50);
    assert_eq!(*inspector, Invocations(3));
    assert!(inspect && overridden);
}

#[test]
fn a_factory_ignores_the_inspector() {
    let two = env(5, None, &[(5, block(1, 1)), (6, block(1, 1))]);
    let mut evm = EthEvmFactory.create_evm(Journal::default(), two, "ignored");
    assert_eq!(*evm.inspector_mut(), NoOpInspector);
    assert_eq!(evm.chain_id(), 5);
    assert!(evm.precompiles_mut().is_cross_chain());
    let mut plain = EthEvmFactory.create_evm_env(Journal::default(), env(5, None, &[]));
    assert_eq!(*plain.inspector_mut(), NoOpInspector);
    let empty = env(5, None, &[]);
    let mut traced = EthEvmFactory.create_evm_with_tracer(Journal::default(), empty, 1u8);
    assert_eq!(*traced.evm.inspector_mut(), NoOpInspector);
    assert_eq!(traced.evm.chain_id(), 5);
}

struct Lines(Vec<&'static str>);

impl IntoTracer for Lines {
    type Output = String;

    fn finish(self) -> String {
        self.0.join("\n")
    }
}

#[test]
fn a_tracer_is_consumed_into_its_output() {
    assert_eq!(Lines(vec!["a", "b"]).finish(), "a\nb");
}
