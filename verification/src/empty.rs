//! Machines over the empty database.

use revm::context::result::ExecutionResult;
use revm::context::Context;
use revm::database_interface::{EmptyDB, EmptyDBTyped};
use revm::precompile::{PrecompileSpecId as RevmPrecompileSpecId, Precompiles};
use revm::primitives::hardfork::SpecId as RevmSpecId;
use revm::{MainBuilder, SystemCallEvm};

use vstd::prelude::*;

use crate::env::EvmEnv;
use crate::eth::{EthEvm, EthEvmBuilder, EthEvmFactory};
use crate::evm::{Evm, EvmFactory, MultiDatabase, NoOpInspector};
use crate::precompiles::{PrecompileSpecId, PrecompilesMap, SpecId};
use crate::primitives::{Address, ChainAddress};
use crate::result::ExecutionStatus;
use crate::tx::TxEnv;

verus! {

/// The database of `revm` that holds no account.
#[verifier::external_type_specification]
#[verifier::external_body]
#[verifier::reject_recursive_types(E)]
pub struct ExEmptyDB<E>(EmptyDBTyped<E>);

impl MultiDatabase for EmptyDB {
    type Error = String;

    type Account = ();

    type State = Vec<Address>;

    type StateChanges = ();
}

/// A database without accounts.
///
/// This calls `revm::database_interface::EmptyDB::default`, of which nothing is claimed.
#[verifier::external_body]
fn empty_db() -> EmptyDB {
    EmptyDB::default()
}

/// What a call outside every transaction gives back.
#[derive(Debug, Clone)]
pub struct SystemCallResult {
    /// How the call ended.
    pub status: ExecutionStatus<String>,
    /// The gas that was spent.
    pub gas_used: u64,
    /// The data that the call returned.
    pub output: Vec<u8>,
    /// The accounts that the call touched.
    pub state: Vec<Address>,
}

/// How a call outside every transaction ended, the gas that it spent and the data that it
/// returned, or the error with which it failed.
pub type SystemCallOutcome = Result<(ExecutionStatus<Seq<char>>, u64, Seq<u8>), Seq<char>>;

/// The parts of an outcome: whether the call was successful, the reason for which it was stopped,
/// the gas that it spent and the data that it returned.
pub type RawOutcome = Result<(bool, Option<Seq<char>>, u64, Option<Seq<u8>>), Seq<char>>;

/// What the machine reports of a call: whether it was successful, the reason for which it was
/// stopped, the gas that it spent, the data that it returned and the accounts that it touched.
pub type RawCall = (bool, Option<String>, u64, Option<Vec<u8>>, Vec<Address>);

/// The outcome that a result shows.
pub open spec fn outcome_of(result: Result<SystemCallResult, String>) -> SystemCallOutcome {
    match result {
        Ok(call) => Ok(
            (
                match call.status {
                    ExecutionStatus::Success => ExecutionStatus::Success,
                    ExecutionStatus::Revert => ExecutionStatus::Revert,
                    ExecutionStatus::Halt(reason) => ExecutionStatus::Halt(reason@),
                },
                call.gas_used,
                call.output@,
            ),
        ),
        Err(error) => Err(error@),
    }
}

/// The parts of the outcome that a report shows.
pub open spec fn parts_of(report: Result<RawCall, String>) -> RawOutcome {
    match report {
        Ok((success, halt, gas_used, output, _)) => Ok(
            (
                success,
                match halt {
                    Some(reason) => Some(reason@),
                    None => None,
                },
                gas_used,
                match output {
                    Some(data) => Some(data@),
                    None => None,
                },
            ),
        ),
        Err(error) => Err(error@),
    }
}

/// The outcome with the parts `parts`. A call that was stopped has a reason, and one that was
/// neither stopped nor successful was reverted.
pub open spec fn composed(parts: RawOutcome) -> SystemCallOutcome {
    match parts {
        Ok((success, halt, gas_used, output)) => Ok(
            (
                match halt {
                    Some(reason) => ExecutionStatus::Halt(reason),
                    None => if success {
                        ExecutionStatus::Success
                    } else {
                        ExecutionStatus::Revert
                    },
                },
                gas_used,
                match output {
                    Some(data) => data,
                    None => Seq::empty(),
                },
            ),
        ),
        Err(error) => Err(error),
    }
}

/// The outcome of a call that does nothing.
pub open spec fn silent_success() -> SystemCallOutcome {
    Ok((ExecutionStatus::Success, 0, Seq::empty()))
}

/// The parts of the outcome of a call of `contract` by `caller` with the input `data`, under the
/// rules with the place `spec` and with the precompiled contracts of those with the place
/// `precompiles`, where no account holds code.
///
/// The precompiled contracts compute with the cryptography that `revm::precompile` has by default.
/// A process that installs another provider in its place must install one that agrees with it.
pub uninterp spec fn system_call_outcome(
    spec: u8,
    precompiles: u8,
    caller: Seq<u8>,
    contract: Seq<u8>,
    data: Seq<u8>,
) -> RawOutcome;

/// Calls `contract` on an empty database.
///
/// This calls `system_call_with_caller` of `revm::SystemCallEvm` on a mainnet machine over
/// `revm::database_interface::EmptyDB`. The contract claims that the outcome depends on the
/// arguments alone, that the call touches the account `contract` and no other unless it fails,
/// and that it succeeds without gas and output where `contract` is not a precompiled contract.
#[verifier::external_body]
fn run_system_call(
    spec: u8,
    precompiles: u8,
    caller: Address,
    contract: Address,
    data: Vec<u8>,
) -> (report: Result<RawCall, String>)
    requires
        spec <= 19,
        precompiles <= 19,
    ensures
        parts_of(report) == system_call_outcome(spec, precompiles, caller@, contract@, data@),
        report matches Ok(call) ==> call.4@ == seq![contract],
        composed(parts_of(report)) == silent_success() || exists|rules: SpecId|
            #[trigger] rules.index() == precompiles && PrecompileSpecId::of(rules).has_precompile(
                contract,
            ),
{
    let spec = RevmSpecId::try_from_u8(spec).unwrap();
    let mut evm = <Context>::new(EmptyDB::default(), spec).build_mainnet();
    let rules = RevmSpecId::try_from_u8(precompiles).unwrap();
    evm.precompiles.precompiles = Precompiles::new(RevmPrecompileSpecId::from_spec_id(rules));
    let call = evm.system_call_with_caller(caller.into(), contract.into(), data.into());
    call.map_err(|error| format!("{error:?}")).map(|out| (
        out.result.is_success(),
        match &out.result {
            ExecutionResult::Halt { reason, .. } => Some(format!("{reason:?}")),
            _ => None,
        },
        out.result.gas_used(),
        out.result.into_output().map(Into::into),
        out.state.into_keys().map(Into::into).collect(),
    ))
}

/// Puts the parts of a report together.
pub fn compose(report: Result<RawCall, String>) -> (result: Result<SystemCallResult, String>)
    ensures
        outcome_of(result) == composed(parts_of(report)),
        result is Ok <==> report is Ok,
        result matches Ok(call) ==> call.state == report->Ok_0.4,
{
    match report {
        Ok((success, halt, gas_used, output, state)) => {
            let status = match halt {
                Some(reason) => ExecutionStatus::Halt(reason),
                None => if success {
                    ExecutionStatus::Success
                } else {
                    ExecutionStatus::Revert
                },
            };
            let output: Vec<u8> = match output {
                Some(data) => data,
                None => Vec::new(),
            };
            Ok(SystemCallResult { status, gas_used, output, state })
        },
        Err(error) => Err(error),
    }
}

impl<I> EthEvm<EmptyDB, I, PrecompilesMap> {
    /// Executes a call of `contract` by `caller` that stands outside every transaction.
    ///
    /// Only the target contract is kept in the state. No account of the empty database holds
    /// code, so that a call of anything but a precompiled contract succeeds and does nothing.
    ///
    /// The contract says how a call ends on a machine for one chain. It leaves open how one ends
    /// on a machine for several, whose precompiled contracts are not those of one chain alone.
    pub fn transact_system_call(
        &mut self,
        caller: ChainAddress,
        contract: ChainAddress,
        data: Vec<u8>,
    ) -> (result: Result<SystemCallResult, String>)
        ensures
            *final(self) == *old(self),
            !old(self).precompiles().xchain() ==> outcome_of(result) == composed(
                system_call_outcome(
                    old(self).env().cfg_env.spec.index(),
                    old(self).precompiles().id().first().index(),
                    caller.1@,
                    contract.1@,
                    data@,
                ),
            ),
            result matches Ok(call) ==> call.state@ == seq![contract.1],
            !old(self).precompiles().xchain() && !old(self).precompiles().id().has_precompile(
                contract.1,
            ) ==> outcome_of(result) == silent_success(),
    {
        let spec: u8 = self.ctx().cfg.spec.as_u8();
        let rules = self.precompile_rules().first_spec_id();
        compose(run_system_call(spec, rules.as_u8(), caller.1, contract.1, data))
    }
}

impl EvmFactory<()> for EthEvmFactory {
    type Evm = EthEvm<EmptyDB, NoOpInspector>;

    type Hardforks = SpecId;

    type Transaction = TxEnv;

    /// The machine has the given environment, no inspector, and the precompiled contracts of the
    /// rules in force.
    open spec fn makes(&self, db: (), env: EvmEnv, evm: EthEvm<EmptyDB, NoOpInspector>) -> bool {
        &&& evm.env() == env
        &&& evm.inspector() == NoOpInspector
        &&& !evm.inspecting()
        &&& evm.precompiles().id() == PrecompileSpecId::of(env.cfg_env.spec)
        &&& evm.precompiles().xchain() == (env.block_env@.len() > 1)
        &&& evm.inner().ctx.tx.is_initial()
    }

    fn create_evm<I>(&self, db: (), env: EvmEnv, inspector: I) -> (evm: EthEvm<
        EmptyDB,
        NoOpInspector,
    >) {
        EthEvmBuilder::new(empty_db(), env).build_no_inspector()
    }
}

} // verus!
