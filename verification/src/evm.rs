//! Abstraction over the virtual machine.

use std::collections::HashMap;

use vstd::prelude::*;

use crate::env::{find_block, BlockEnv, EvmEnv};
use crate::primitives::{Address, ChainAddress};
use crate::result::{ExecutionResult, ResultAndState};
use crate::tx::IntoTxEnv;

verus! {

/// A database that holds the state of one or more chains.
pub trait MultiDatabase: Sized {
    /// The error with which a read can fail.
    type Error;

    /// An account as an execution left it.
    type Account;

    /// The accounts that an execution touched, as it left them.
    type State;

    /// The changes of one transaction, in the form in which a block collects them.
    type StateChanges;
}

/// An instance of a virtual machine, with the environment of its block and its database.
pub trait Evm: Sized {
    /// The database that the machine holds.
    type DB;

    /// The transaction that the machine executes.
    type Tx: IntoTxEnv<Self::Tx>;

    /// The error of a transaction that cannot be executed.
    type Error;

    /// The reason for which an execution is stopped.
    type HaltReason;

    /// An account as an execution left it.
    type Account;

    /// The accounts that an execution touched, as it left them.
    type State;

    /// The changes of one transaction, in the form in which a block collects them.
    type StateChanges;

    /// The rules that the machine knows.
    type Spec;

    /// The precompiled contracts of the machine.
    type Precompiles;

    /// The inspector of the machine.
    type Inspector;

    /// The configuration and the block environments.
    spec fn env(&self) -> EvmEnv<Self::Spec>;

    /// The database.
    spec fn db(&self) -> Self::DB;

    /// The precompiled contracts.
    spec fn precompiles(&self) -> Self::Precompiles;

    /// The inspector.
    spec fn inspector(&self) -> Self::Inspector;

    /// Whether `prepared` is the transaction that the machine executes when it is given `tx`.
    spec fn prepares(&self, tx: Self::Tx, prepared: Self::Tx) -> bool;

    /// Returns the block environments of all chains.
    fn blocks(&self) -> (blocks: &HashMap<u64, BlockEnv>)
        ensures
            *blocks == self.env().block_env,
    ;

    /// Returns the block environment of the machine's chain, or that of chain 0 where the chain
    /// has none.
    fn block(&self) -> (block: &BlockEnv)
        requires
            self.env().has_block(),
        ensures
            *block == self.env().block(),
    {
        let block = find_block(self.blocks(), self.chain_id());
        block.unwrap()
    }

    /// Returns the chain of the machine.
    fn chain_id(&self) -> (chain_id: u64)
        ensures
            chain_id == self.env().cfg_env.chain_id,
    ;

    /// Turns `tx` into the transaction that the machine executes.
    fn prepare_transaction<T: IntoTxEnv<Self::Tx>>(&self, tx: T) -> (prepared: Self::Tx)
        ensures
            self.prepares(tx.tx_env(), prepared),
    ;

    /// Returns a mutable reference to the database.
    fn db_mut(&mut self) -> (db: &mut Self::DB)
        ensures
            *db == old(self).db(),
            final(self).db() == *final(db),
            final(self).env() == old(self).env(),
            final(self).precompiles() == old(self).precompiles(),
            final(self).inspector() == old(self).inspector(),
    ;

    /// Consumes the machine and returns its database and its environment.
    fn finish(self) -> (parts: (Self::DB, EvmEnv<Self::Spec>))
        ensures
            parts == (self.db(), self.env()),
    ;

    /// Consumes the machine and returns its database.
    fn into_db(self) -> (db: Self::DB)
        ensures
            db == self.db(),
    {
        self.finish().0
    }

    /// Consumes the machine and returns its environment.
    fn into_env(self) -> (env: EvmEnv<Self::Spec>)
        ensures
            env == self.env(),
    {
        self.finish().1
    }

    /// Returns a mutable reference to the precompiled contracts.
    fn precompiles_mut(&mut self) -> (precompiles: &mut Self::Precompiles)
        ensures
            *precompiles == old(self).precompiles(),
            final(self).precompiles() == *final(precompiles),
            final(self).env() == old(self).env(),
            final(self).db() == old(self).db(),
            final(self).inspector() == old(self).inspector(),
    ;

    /// Returns a mutable reference to the inspector.
    fn inspector_mut(&mut self) -> (inspector: &mut Self::Inspector)
        ensures
            *inspector == old(self).inspector(),
            final(self).inspector() == *final(inspector),
            final(self).env() == old(self).env(),
            final(self).db() == old(self).db(),
            final(self).precompiles() == old(self).precompiles(),
    ;
}

/// Whether two machines hold the same environment, database and precompiled contracts.
pub open spec fn holds_the_same<E: Evm>(before: E, after: E) -> bool {
    &&& after.env() == before.env()
    &&& after.db() == before.db()
    &&& after.precompiles() == before.precompiles()
}

/// A database to which the outcome of an execution can be committed.
pub trait MultiDatabaseCommit<State> {
    /// Commits the accounts that an execution touched.
    fn commit_multi(&mut self, state: State);
}

/// A virtual machine that executes transactions.
pub trait Transact: Evm {
    /// Executes a transaction and returns the outcome. Nothing is committed to the database.
    fn transact_raw(&mut self, tx: Self::Tx) -> (outcome: Result<
        ResultAndState<Self::HaltReason, Self::State, Self::StateChanges>,
        Self::Error,
    >)
        ensures
            holds_the_same(*old(self), *final(self)),
    ;

    /// Executes what can be turned into a transaction.
    fn transact<T: IntoTxEnv<Self::Tx>>(&mut self, tx: T) -> (outcome: Result<
        ResultAndState<Self::HaltReason, Self::State, Self::StateChanges>,
        Self::Error,
    >)
        ensures
            holds_the_same(*old(self), *final(self)),
            exists|evm: &mut Self, prepared: Self::Tx|
                {
                    &&& *evm == *old(self)
                    &&& *final(evm) == *final(self)
                    &&& old(self).prepares(tx.tx_env(), prepared)
                    &&& #[trigger] call_ensures(Self::transact_raw, (evm, prepared), outcome)
                },
    {
        let prepared = self.prepare_transaction(tx);
        self.transact_raw(prepared)
    }

    /// Executes a transaction and commits the state changes to the underlying database. Nothing
    /// is committed where the transaction cannot be executed.
    fn transact_commit<T: IntoTxEnv<Self::Tx>>(&mut self, tx: T) -> (outcome: Result<
        ExecutionResult<Self::HaltReason>,
        Self::Error,
    >) where Self::DB: MultiDatabaseCommit<Self::State>
        default_ensures
            exists|
                evm: &mut Self,
                executed: Result<
                    ResultAndState<Self::HaltReason, Self::State, Self::StateChanges>,
                    Self::Error,
                >,
            |
                {
                    &&& *evm == *old(self)
                    &&& #[trigger] call_ensures(Self::transact::<T>, (evm, tx), executed)
                    &&& match executed {
                        Err(error) => outcome == Err::<ExecutionResult<Self::HaltReason>, _>(error)
                            && *final(self) == *final(evm),
                        Ok(done) => {
                            &&& outcome == Ok::<_, Self::Error>(done.result)
                            &&& final(self).env() == final(evm).env()
                            &&& final(self).precompiles() == final(evm).precompiles()
                            &&& final(self).inspector() == final(evm).inspector()
                            &&& exists|db: &mut Self::DB|
                                {
                                    &&& *db == final(evm).db()
                                    &&& *final(db) == final(self).db()
                                    &&& #[trigger] call_ensures(
                                        <Self::DB as MultiDatabaseCommit<
                                            Self::State,
                                        >>::commit_multi,
                                        (db, done.state),
                                        (),
                                    )
                                }
                        },
                    }
                },
    {
        let executed = match self.transact(tx) {
            Ok(executed) => executed,
            Err(error) => {
                return Err(error);
            },
        };
        self.db_mut().commit_multi(executed.state);
        Ok(executed.result)
    }

    /// Executes a call of `contract` by `caller` that stands outside every transaction. Nothing is
    /// committed to the database.
    ///
    /// Only the target contract is kept in the state. A machine loads other accounts too, such as
    /// the beneficiary of the block, and the contract is kept where it is one of those.
    fn transact_system_call(
        &mut self,
        caller: ChainAddress,
        contract: ChainAddress,
        data: Vec<u8>,
    ) -> (outcome: Result<
        ResultAndState<Self::HaltReason, Vec<(Address, Self::Account)>, Self::StateChanges>,
        Self::Error,
    >)
        ensures
            holds_the_same(*old(self), *final(self)),
            outcome matches Ok(done) ==> forall|i: int|
                0 <= i < done.state@.len() ==> (#[trigger] done.state@[i]).0 == contract.1,
    ;

    /// Whether further transactions should be inspected after one with the result `result`.
    fn should_continue(&mut self, result: &ExecutionResult<Self::HaltReason>) -> (go_on: bool)
        default_ensures
            go_on == (result.status is Success),
            *final(self) == *old(self),
    {
        result.is_success()
    }
}

/// Consumes a tracer and builds its final state.
pub trait IntoTracer: Sized {
    /// The output of the tracer.
    type Output;

    /// Consumes the tracer and returns its final state.
    fn finish(self) -> Self::Output;
}

/// A machine with a tracer for its transactions.
#[derive(Debug)]
pub struct TxTracer<E> {
    /// The machine.
    pub evm: E,
}

impl<E> TxTracer<E> {
    /// Traces the transactions of `evm`.
    pub fn new(evm: E) -> (tracer: Self)
        ensures
            tracer.evm == evm,
    {
        TxTracer { evm }
    }
}

/// An inspector that does nothing.
#[derive(Debug, Clone, Copy, PartialEq, Eq, Structural)]
pub struct NoOpInspector;

/// A factory for machines over the database `DB`.
pub trait EvmFactory<DB>: Sized {
    /// The machine that the factory makes.
    type Evm;

    /// The rules that the machines know.
    type Hardforks;

    /// The transaction that the machines execute.
    type Transaction;

    /// Whether `evm` is what the factory makes of a database and an environment.
    spec fn makes(&self, db: DB, env: EvmEnv<Self::Hardforks>, evm: Self::Evm) -> bool;

    /// Creates a machine.
    fn create_evm<I>(&self, db: DB, env: EvmEnv<Self::Hardforks>, inspector: I) -> (evm: Self::Evm)
        ensures
            self.makes(db, env, evm),
    ;

    /// Creates a machine with a tracer for its transactions.
    fn create_evm_with_tracer<T>(
        &self,
        db: DB,
        env: EvmEnv<Self::Hardforks>,
        tracer: T,
    ) -> (traced: TxTracer<Self::Evm>)
        ensures
            self.makes(db, env, traced.evm),
    {
        TxTracer::new(self.create_evm(db, env, tracer))
    }

    /// Creates a machine without an inspector.
    fn create_evm_env(&self, db: DB, env: EvmEnv<Self::Hardforks>) -> (evm: Self::Evm)
        ensures
            self.makes(db, env, evm),
    {
        self.create_evm(db, env, NoOpInspector)
    }
}

} // verus!
