//! The Ethereum virtual machine.

pub mod block;
pub mod finish;
pub mod gas;
pub mod hook;
pub mod receipts;

use std::collections::HashMap;

use vstd::prelude::*;

use crate::env::{chain_ids, BlockEnv, CfgEnv, EvmEnv};
use crate::evm::{self, Evm, EvmFactory, MultiDatabase, NoOpInspector, Transact};
use crate::precompiles::{PrecompileSpecId, PrecompilesMap, SpecId};
use crate::primitives::{same_address, Address, ChainAddress};
use crate::result::ResultAndState;
use crate::tx::{IntoTxEnv, TxEnv, TxKind};

verus! {

broadcast use vstd::std_specs::hash::group_hash_axioms;

/// The context of an Ethereum virtual machine.
#[derive(Debug)]
pub struct EthEvmContext<DB> {
    /// The block environment of each chain.
    pub block: HashMap<u64, BlockEnv>,
    /// The transaction that is executed.
    pub tx: TxEnv,
    /// The configuration.
    pub cfg: CfgEnv,
    /// The database.
    pub db: DB,
}

impl<DB> EthEvmContext<DB> {
    /// The chain that transactions without a chain id belong to.
    pub open spec fn default_chain(self) -> u64 {
        match self.cfg.parent_chain_id {
            Some(parent) => parent,
            None => self.cfg.chain_id,
        }
    }
}

/// A machine: its context, its inspector and its precompiled contracts.
#[derive(Debug)]
pub struct MainnetEvm<DB, I, P> {
    /// The context.
    pub ctx: EthEvmContext<DB>,
    /// The inspector.
    pub inspector: I,
    /// The precompiled contracts.
    pub precompiles: P,
}

/// Helper builder to construct [`EthEvm`] instances in a unified way.
pub struct EthEvmBuilder<DB: MultiDatabase, I = NoOpInspector> {
    db: DB,
    block_env: HashMap<u64, BlockEnv>,
    cfg_env: CfgEnv,
    inspector: I,
    inspect: bool,
    precompiles: Option<PrecompilesMap>,
}

/// What a builder has collected.
pub ghost struct BuilderView<DB, I> {
    /// The database.
    pub db: DB,
    /// The environment.
    pub env: EvmEnv,
    /// The inspector.
    pub inspector: I,
    /// Whether the inspector is invoked.
    pub inspect: bool,
    /// The precompiled contracts, where they were given.
    pub precompiles: Option<PrecompilesMap>,
}

impl<DB, I> BuilderView<DB, I> {
    /// The same with another inspector.
    pub open spec fn with_inspector<J>(self, inspector: J) -> BuilderView<DB, J> {
        BuilderView {
            db: self.db,
            env: self.env,
            inspector,
            inspect: self.inspect,
            precompiles: self.precompiles,
        }
    }

    /// The same with the inspector invoked or not.
    pub open spec fn with_inspect(self, inspect: bool) -> BuilderView<DB, I> {
        BuilderView { inspect, ..self }
    }

    /// Whether `precompiles` are those that were given or, where none were given, those of the
    /// rules in force, for one chain or for several.
    pub open spec fn selects(self, precompiles: PrecompilesMap) -> bool {
        match self.precompiles {
            Some(given) => precompiles == given,
            None => {
                &&& precompiles.id() == PrecompileSpecId::of(self.env.cfg_env.spec)
                &&& precompiles.xchain() == (self.env.block_env@.len() > 1)
            },
        }
    }
}

impl<DB: MultiDatabase, I> View for EthEvmBuilder<DB, I> {
    type V = BuilderView<DB, I>;

    closed spec fn view(&self) -> BuilderView<DB, I> {
        BuilderView {
            db: self.db,
            env: EvmEnv { cfg_env: self.cfg_env, block_env: self.block_env },
            inspector: self.inspector,
            inspect: self.inspect,
            precompiles: self.precompiles,
        }
    }
}

impl<DB: MultiDatabase> EthEvmBuilder<DB, NoOpInspector> {
    /// Creates a builder from the provided environment and database.
    pub fn new(db: DB, env: EvmEnv) -> (builder: Self)
        ensures
            builder@ == (BuilderView {
                db,
                env,
                inspector: NoOpInspector,
                inspect: false,
                precompiles: None,
            }),
    {
        Self {
            db,
            block_env: env.block_env,
            cfg_env: env.cfg_env,
            inspector: NoOpInspector,
            inspect: false,
            precompiles: None,
        }
    }
}

impl<DB: MultiDatabase, I> EthEvmBuilder<DB, I> {
    /// Sets a custom inspector.
    pub fn inspector<J>(self, inspector: J) -> (builder: EthEvmBuilder<DB, J>)
        ensures
            builder@ == self@.with_inspector(inspector),
    {
        EthEvmBuilder {
            db: self.db,
            block_env: self.block_env,
            cfg_env: self.cfg_env,
            inspector,
            inspect: self.inspect,
            precompiles: self.precompiles,
        }
    }

    /// Sets a custom inspector and enables invoking it during transaction execution.
    pub fn activate_inspector<J>(self, inspector: J) -> (builder: EthEvmBuilder<DB, J>)
        ensures
            builder@ == self@.with_inspector(inspector).with_inspect(true),
    {
        self.inspector(inspector).inspect()
    }

    /// Sets whether to invoke the inspector during transaction execution.
    pub fn set_inspect(self, inspect: bool) -> (builder: Self)
        ensures
            builder@ == self@.with_inspect(inspect),
    {
        let mut builder = self;
        builder.inspect = inspect;
        builder
    }

    /// Enables invoking the inspector during transaction execution.
    pub fn inspect(self) -> (builder: Self)
        ensures
            builder@ == self@.with_inspect(true),
    {
        self.set_inspect(true)
    }

    /// Overrides the precompiled contracts. If none are provided, they are derived from the rules
    /// of the configuration.
    pub fn precompiles(self, precompiles: PrecompilesMap) -> (builder: Self)
        ensures
            builder@ == (BuilderView { precompiles: Some(precompiles), ..self@ }),
    {
        let mut builder = self;
        builder.precompiles = Some(precompiles);
        builder
    }

    /// Returns what a description of the builder shows: the database, the block environments, the
    /// inspector, whether it is invoked, and whether the precompiled contracts were given.
    pub fn described(&self) -> (parts: (&DB, &HashMap<u64, BlockEnv>, &I, bool, bool))
        ensures
            parts == (
                &self@.db,
                &self@.env.block_env,
                &self@.inspector,
                self@.inspect,
                self@.precompiles is Some,
            ),
    {
        (&self.db, &self.block_env, &self.inspector, self.inspect, self.precompiles.is_some())
    }

    /// Builds the machine without inspector.
    pub fn build_no_inspector(self) -> (evm: EthEvm<DB, NoOpInspector, PrecompilesMap>)
        ensures
            evm.db() == self@.db,
            evm.env() == self@.env,
            evm.inspector() == NoOpInspector,
            !evm.inspecting(),
            self@.selects(evm.precompiles()),
            evm.inner().ctx.tx.is_initial(),
    {
        let xchain = !self.block_env.is_empty() && self.block_env.len() > 1;
        let precompiles = match self.precompiles {
            Some(precompiles) => precompiles,
            None => PrecompilesMap::from_static(
                PrecompileSpecId::from_spec_id(self.cfg_env.spec),
                xchain,
            ),
        };
        let ctx = EthEvmContext {
            block: self.block_env,
            tx: TxEnv::default(),
            cfg: self.cfg_env,
            db: self.db,
        };
        EthEvm {
            inner: MainnetEvm { ctx, inspector: NoOpInspector, precompiles },
            inspect: false,
        }
    }

    /// Builds the machine.
    pub fn build(self) -> (evm: EthEvm<DB, I, PrecompilesMap>)
        ensures
            evm.db() == self@.db,
            evm.env() == self@.env,
            evm.inspector() == self@.inspector,
            evm.inspecting() == self@.inspect,
            self@.selects(evm.precompiles()),
            evm.inner().ctx.tx.is_initial(),
    {
        let xchain = !self.block_env.is_empty() && self.block_env.len() > 1;
        let precompiles = match self.precompiles {
            Some(precompiles) => precompiles,
            None => PrecompilesMap::from_static(
                PrecompileSpecId::from_spec_id(self.cfg_env.spec),
                xchain,
            ),
        };
        let ctx = EthEvmContext {
            block: self.block_env,
            tx: TxEnv::default(),
            cfg: self.cfg_env,
            db: self.db,
        };
        EthEvm {
            inner: MainnetEvm { ctx, inspector: self.inspector, precompiles },
            inspect: self.inspect,
        }
    }
}

/// An Ethereum virtual machine with an optional inspector, which can be turned on and off.
#[derive(Debug)]
pub struct EthEvm<DB: MultiDatabase, I, P = PrecompilesMap> {
    inner: MainnetEvm<DB, I, P>,
    inspect: bool,
}

impl<DB: MultiDatabase, I, P> EthEvm<DB, I, P> {
    /// The machine inside.
    pub closed spec fn inner(self) -> MainnetEvm<DB, I, P> {
        self.inner
    }

    /// Whether the inspector is invoked.
    pub closed spec fn inspecting(self) -> bool {
        self.inspect
    }

    /// Creates a new Ethereum virtual machine.
    ///
    /// The `inspect` argument determines whether the inspector of the given machine should be
    /// invoked.
    pub fn new(evm: MainnetEvm<DB, I, P>, inspect: bool) -> (wrapped: Self)
        ensures
            wrapped.inner() == evm,
            wrapped.inspecting() == inspect,
    {
        Self { inner: evm, inspect }
    }

    /// Consumes self and returns the machine inside.
    pub fn into_inner(self) -> (evm: MainnetEvm<DB, I, P>)
        ensures
            evm == self.inner(),
    {
        self.inner
    }

    /// Provides a reference to the context.
    pub fn ctx(&self) -> (ctx: &EthEvmContext<DB>)
        ensures
            *ctx == self.inner().ctx,
    {
        &self.inner.ctx
    }

    /// Provides a mutable reference to the context.
    pub fn ctx_mut(&mut self) -> (ctx: &mut EthEvmContext<DB>)
        ensures
            *ctx == old(self).inner().ctx,
            final(self).inner() == (MainnetEvm { ctx: *final(ctx), ..old(self).inner() }),
            final(self).inspecting() == old(self).inspecting(),
    {
        &mut self.inner.ctx
    }
}

impl<DB: MultiDatabase, I, P> core::ops::Deref for EthEvm<DB, I, P> {
    type Target = EthEvmContext<DB>;

    fn deref(&self) -> (ctx: &EthEvmContext<DB>)
        ensures
            *ctx == self.inner().ctx,
    {
        self.ctx()
    }
}

impl<DB: MultiDatabase, I, P> core::ops::DerefMut for EthEvm<DB, I, P> {
    fn deref_mut(&mut self) -> (ctx: &mut EthEvmContext<DB>)
        ensures
            *ctx == old(self).inner().ctx,
            final(self).inner() == (MainnetEvm { ctx: *final(ctx), ..old(self).inner() }),
            final(self).inspecting() == old(self).inspecting(),
    {
        self.ctx_mut()
    }
}

impl<DB: MultiDatabase, I> EthEvm<DB, I, PrecompilesMap> {
    /// Returns the rules that the precompiled contracts belong to.
    pub fn precompile_rules(&self) -> (id: PrecompileSpecId)
        ensures
            id == self.precompiles().id(),
    {
        self.inner.precompiles.spec_id()
    }
}

impl<DB: MultiDatabase, I, P> Evm for EthEvm<DB, I, P> {
    type DB = DB;

    type Tx = TxEnv;

    type Error = DB::Error;

    type HaltReason = String;

    type Account = DB::Account;

    type State = DB::State;

    type StateChanges = DB::StateChanges;

    type Spec = SpecId;

    type Precompiles = P;

    type Inspector = I;

    open spec fn env(&self) -> EvmEnv {
        EvmEnv { cfg_env: self.inner().ctx.cfg, block_env: self.inner().ctx.block }
    }

    open spec fn db(&self) -> DB {
        self.inner().ctx.db
    }

    open spec fn precompiles(&self) -> P {
        self.inner().precompiles
    }

    open spec fn inspector(&self) -> I {
        self.inner().inspector
    }

    /// A transaction that names no chain becomes one of the parent chain, or of the machine's own
    /// chain where there is no parent, and so do the accounts that it names on chain 0. Every
    /// transaction can reach all chains that have a block environment.
    open spec fn prepares(&self, tx: TxEnv, prepared: TxEnv) -> bool {
        &&& prepared.chain_ids matches Some(chain_ids) && {
            &&& chain_ids@.no_duplicates()
            &&& chain_ids@.to_set() == self.env().block_env@.dom()
        }
        &&& prepared == TxEnv {
            chain_ids: prepared.chain_ids,
            ..tx.completed(self.inner().ctx.default_chain())
        }
    }

    fn blocks(&self) -> (blocks: &HashMap<u64, BlockEnv>) {
        &self.inner.ctx.block
    }

    fn chain_id(&self) -> (chain_id: u64) {
        self.inner.ctx.cfg.chain_id
    }

    fn prepare_transaction<T: IntoTxEnv<TxEnv>>(&self, tx: T) -> (prepared: TxEnv) {
        let mut tx_env = tx.into_tx_env();
        let default_chain_id: u64 = match self.inner.ctx.cfg.parent_chain_id {
            Some(parent_chain_id) => parent_chain_id,
            None => self.inner.ctx.cfg.chain_id,
        };
        tx_env.complete(default_chain_id);
        tx_env.chain_ids = Some(chain_ids(&self.inner.ctx.block));
        tx_env
    }

    fn db_mut(&mut self) -> (db: &mut DB)
        ensures
            final(self).inner() == (MainnetEvm {
                ctx: EthEvmContext { db: *final(db), ..old(self).inner().ctx },
                ..old(self).inner()
            }),
            final(self).inspecting() == old(self).inspecting(),
    {
        &mut self.inner.ctx.db
    }

    fn finish(self) -> (parts: (DB, EvmEnv)) {
        let ctx = self.inner.ctx;
        (ctx.db, EvmEnv { block_env: ctx.block, cfg_env: ctx.cfg })
    }

    fn precompiles_mut(&mut self) -> (precompiles: &mut P)
        ensures
            final(self).inner() == (MainnetEvm {
                precompiles: *final(precompiles),
                ..old(self).inner()
            }),
            final(self).inspecting() == old(self).inspecting(),
    {
        &mut self.inner.precompiles
    }

    fn inspector_mut(&mut self) -> (inspector: &mut I)
        ensures
            final(self).inner() == (MainnetEvm {
                inspector: *final(inspector),
                ..old(self).inner()
            }),
            final(self).inspecting() == old(self).inspecting(),
    {
        &mut self.inner.inspector
    }
}

/// A database over which a machine with an inspector of type `I` and precompiled contracts of
/// type `P` runs.
///
/// A run reads the context and leaves it as it is. What it does to accounts is part of its
/// outcome.
pub trait ExecuteEvm<I, P>: MultiDatabase {
    /// Runs the transaction of the context, without an inspector.
    fn transact(ctx: &EthEvmContext<Self>, precompiles: &P) -> Result<
        ResultAndState<String, Self::State, Self::StateChanges>,
        Self::Error,
    >;

    /// Runs the transaction of the context and invokes the inspector on the way.
    fn inspect_tx(ctx: &EthEvmContext<Self>, precompiles: &P, inspector: &mut I) -> Result<
        ResultAndState<String, Self::State, Self::StateChanges>,
        Self::Error,
    >;

    /// Runs a call of `contract` by `caller` that stands outside every transaction. The state of
    /// the outcome lists the accounts that the call loaded, those of the machine's chain.
    fn system_call_with_caller(
        ctx: &EthEvmContext<Self>,
        precompiles: &P,
        caller: Address,
        contract: Address,
        data: Vec<u8>,
    ) -> Result<
        ResultAndState<String, Vec<(Address, Self::Account)>, Self::StateChanges>,
        Self::Error,
    >;
}

/// Whether an account stands at `address`.
pub open spec fn stands_at<Account>(address: Address) -> spec_fn((Address, Account)) -> bool {
    |account: (Address, Account)| account.0 == address
}

/// The accounts of `state` at `address`.
pub open spec fn accounts_at<Account>(
    state: Seq<(Address, Account)>,
    address: Address,
) -> Seq<(Address, Account)> {
    state.filter(stands_at(address))
}

/// Drops all accounts of `state` but those at `address`.
pub fn keep_account<Account>(state: &mut Vec<(Address, Account)>, address: &Address)
    ensures
        final(state)@ == accounts_at(old(state)@, *address),
{
    let ghost is_kept = stands_at::<Account>(*address);
    let ghost before = state@;
    let mut i: usize = 0;
    while i < state.len()
        invariant
            i <= state@.len(),
            is_kept == stands_at::<Account>(*address),
            state@.filter(is_kept) == before.filter(is_kept),
            state@.take(i as int).filter(is_kept) == state@.take(i as int),
        decreases state@.len() - i,
    {
        let ghost all = state@;
        proof {
            broadcast use Seq::filter_distributes_over_add;

            assert(all =~= all.take(i as int) + (seq![all[i as int]] + all.skip(i + 1)));
            assert(all.take(i + 1) =~= all.take(i as int).push(all[i as int]));
            assert(all.take(i + 1).drop_last() =~= all.take(i as int));
            assert(seq![all[i as int]].drop_last() =~= Seq::<(Address, Account)>::empty());
            reveal_with_fuel(Seq::filter, 2);
        }
        if same_address(&state[i].0, address) {
            i += 1;
        } else {
            let _ = state.remove(i);
            proof {
                broadcast use Seq::filter_distributes_over_add;

                assert(state@ =~= all.take(i as int) + all.skip(i + 1));
                assert(state@.take(i as int) =~= all.take(i as int));
                assert(seq![all[i as int]].filter(is_kept) =~= Seq::<(Address, Account)>::empty());
                assert((seq![all[i as int]] + all.skip(i + 1)).filter(is_kept) =~= all.skip(
                    i + 1,
                ).filter(is_kept));
            }
        }
    }
    assert(state@.take(i as int) =~= state@);
}

impl<DB: ExecuteEvm<I, P>, I, P> EthEvm<DB, I, P> {
    /// Whether `outcome` can come of the transaction `tx` where the inspector is not invoked: that
    /// of a run of what `tx` is prepared into.
    pub open spec fn gives(
        self,
        tx: TxEnv,
        outcome: Result<ResultAndState<String, DB::State, DB::StateChanges>, DB::Error>,
    ) -> bool {
        exists|prepared: TxEnv|
            {
                &&& #[trigger] self.prepares(tx, prepared)
                &&& call_ensures(
                    <DB as ExecuteEvm<I, P>>::transact,
                    (
                        &EthEvmContext { tx: prepared, ..self.inner().ctx },
                        &self.inner().precompiles,
                    ),
                    outcome,
                )
            }
    }

    /// Whether `outcome` is what the machine returns for a call of `contract` by `caller` outside
    /// every transaction: what the run of that call gives back, with the target contract as the
    /// only account in its state.
    pub open spec fn answers(
        self,
        caller: ChainAddress,
        contract: ChainAddress,
        data: Vec<u8>,
        outcome: Result<
            ResultAndState<String, Vec<(Address, DB::Account)>, DB::StateChanges>,
            DB::Error,
        >,
    ) -> bool {
        exists|
            reply: Result<
                ResultAndState<String, Vec<(Address, DB::Account)>, DB::StateChanges>,
                DB::Error,
            >,
        |
            {
                &&& #[trigger] call_ensures(
                    <DB as ExecuteEvm<I, P>>::system_call_with_caller,
                    (&self.inner().ctx, &self.inner().precompiles, caller.1, contract.1, data),
                    reply,
                )
                &&& match reply {
                    Err(error) => outcome matches Err(e) && e == error,
                    Ok(done) => {
                        &&& outcome matches Ok(kept)
                        &&& kept.result == done.result
                        &&& kept.state_changes == done.state_changes
                        &&& kept.state@ == accounts_at(done.state@, contract.1)
                    },
                }
            }
    }
}

impl<DB: ExecuteEvm<I, P>, I, P> Transact for EthEvm<DB, I, P> {
    fn transact_raw(&mut self, tx: TxEnv) -> (outcome: Result<
        ResultAndState<String, DB::State, DB::StateChanges>,
        DB::Error,
    >)
        ensures
            final(self).inner() == (MainnetEvm {
                ctx: EthEvmContext { tx, ..old(self).inner().ctx },
                inspector: final(self).inner().inspector,
                ..old(self).inner()
            }),
            final(self).inspecting() == old(self).inspecting(),
            !old(self).inspecting() ==> {
                &&& final(self).inner().inspector == old(self).inner().inspector
                &&& call_ensures(
                    <DB as ExecuteEvm<I, P>>::transact,
                    (&final(self).inner().ctx, &final(self).inner().precompiles),
                    outcome,
                )
            },
            old(self).inspecting() ==> exists|inspector: &mut I|
                {
                    &&& *inspector == old(self).inner().inspector
                    &&& *final(inspector) == final(self).inner().inspector
                    &&& #[trigger] call_ensures(
                        <DB as ExecuteEvm<I, P>>::inspect_tx,
                        (&final(self).inner().ctx, &final(self).inner().precompiles, inspector),
                        outcome,
                    )
                },
    {
        self.inner.ctx.tx = tx;
        if self.inspect {
            DB::inspect_tx(&self.inner.ctx, &self.inner.precompiles, &mut self.inner.inspector)
        } else {
            DB::transact(&self.inner.ctx, &self.inner.precompiles)
        }
    }

    fn transact<T: IntoTxEnv<TxEnv>>(&mut self, tx: T) -> (outcome: Result<
        ResultAndState<String, DB::State, DB::StateChanges>,
        DB::Error,
    >) {
        let tx_env = self.prepare_transaction(tx);
        self.transact_raw(tx_env)
    }

    fn transact_system_call(
        &mut self,
        caller: ChainAddress,
        contract: ChainAddress,
        data: Vec<u8>,
    ) -> (outcome: Result<
        ResultAndState<String, Vec<(Address, DB::Account)>, DB::StateChanges>,
        DB::Error,
    >)
        ensures
            *final(self) == *old(self),
            old(self).answers(caller, contract, data, outcome),
    {
        let reply = DB::system_call_with_caller(
            &self.inner.ctx,
            &self.inner.precompiles,
            caller.1,
            contract.1,
            data,
        );
        match reply {
            Ok(done) => {
                let mut state = done.state;
                keep_account(&mut state, &contract.1);
                proof {
                    lemma_only_that_account(done.state@, contract.1);
                }
                Ok(
                    ResultAndState {
                        result: done.result,
                        state,
                        state_changes: done.state_changes,
                    },
                )
            },
            Err(error) => Err(error),
        }
    }
}

/// All accounts that are left stand at the address.
proof fn lemma_only_that_account<Account>(state: Seq<(Address, Account)>, address: Address)
    ensures
        forall|i: int|
            0 <= i < accounts_at(state, address).len() ==> (#[trigger] accounts_at(
                state,
                address,
            )[i]).0 == address,
{
    broadcast use Seq::lemma_filter_pred;

}

/// Factory for creating and configuring machines.
#[derive(Debug, Clone, Copy, Default, PartialEq, Eq, Structural)]
pub struct EthEvmFactory;

impl<DB: MultiDatabase> EvmFactory<DB> for EthEvmFactory {
    type Evm = EthEvm<DB, NoOpInspector>;

    type Hardforks = SpecId;

    type Transaction = TxEnv;

    /// The machine has the given database and environment, no inspector, and the precompiled
    /// contracts of the rules in force.
    open spec fn makes(&self, db: DB, env: EvmEnv, evm: EthEvm<DB, NoOpInspector>) -> bool {
        &&& evm.db() == db
        &&& evm.env() == env
        &&& evm.inspector() == NoOpInspector
        &&& !evm.inspecting()
        &&& evm.precompiles().id() == PrecompileSpecId::of(env.cfg_env.spec)
        &&& evm.precompiles().xchain() == (env.block_env@.len() > 1)
        &&& evm.inner().ctx.tx.is_initial()
    }

    fn create_evm<I>(&self, db: DB, env: EvmEnv, inspector: I) -> (evm: EthEvm<DB, NoOpInspector>) {
        EthEvmBuilder::new(db, env).build_no_inspector()
    }
}

/// The settings of a builder are independent of each other: the last inspector and the last
/// choice whether to invoke it win, in whatever order they are made.
pub proof fn law_last_setting_wins<DB, I, J, K>(
    view: BuilderView<DB, I>,
    first: J,
    second: K,
    inspect: bool,
    again: bool,
)
    ensures
        view.with_inspector(first).with_inspector(second) == view.with_inspector(second),
        view.with_inspect(inspect).with_inspect(again) == view.with_inspect(again),
        view.with_inspector(first).with_inspect(inspect) == view.with_inspect(
            inspect,
        ).with_inspector(first),
{
}

/// No setting of a builder touches the database or the environment that it was created with.
pub proof fn law_builder_keeps_database_and_environment<DB, I, J>(
    view: BuilderView<DB, I>,
    inspector: J,
    inspect: bool,
    precompiles: PrecompilesMap,
)
    ensures
        view.with_inspector(inspector).db == view.db,
        view.with_inspector(inspector).env == view.env,
        view.with_inspect(inspect).db == view.db,
        view.with_inspect(inspect).env == view.env,
        (BuilderView { precompiles: Some(precompiles), ..view }).db == view.db,
        (BuilderView { precompiles: Some(precompiles), ..view }).env == view.env,
{
}

/// To prepare a transaction that was prepared before changes nothing but, perhaps, the order of
/// its chains.
pub proof fn law_prepared_once<DB: MultiDatabase, I, P>(
    evm: EthEvm<DB, I, P>,
    tx: TxEnv,
    once: TxEnv,
    twice: TxEnv,
)
    requires
        evm.prepares(tx, once),
        evm.prepares(once, twice),
    ensures
        once.chain_id is Some,
        twice == (TxEnv { chain_ids: twice.chain_ids, ..once }),
        once.chain_ids is Some && twice.chain_ids is Some,
        twice.chain_ids->0@.to_set() == once.chain_ids->0@.to_set(),
{
}

/// A transaction that names no chain is executed as the same transaction written for the default
/// chain: the machine prepares both into the same transactions, and the same outcomes can come of
/// both.
pub proof fn law_legacy_transaction_is_one_of_the_default_chain<DB: ExecuteEvm<I, P>, I, P>(
    evm: EthEvm<DB, I, P>,
    legacy: TxEnv,
    written: TxEnv,
    outcome: Result<ResultAndState<String, DB::State, DB::StateChanges>, DB::Error>,
)
    requires
        legacy.chain_id is None,
        legacy.caller.0 == 0,
        legacy.kind matches TxKind::Call(account) ==> account.0 == 0,
        written == (TxEnv {
            chain_id: Some(evm.inner().ctx.default_chain()),
            caller: ChainAddress(evm.inner().ctx.default_chain(), legacy.caller.1),
            kind: match legacy.kind {
                TxKind::Call(account) => TxKind::Call(
                    ChainAddress(evm.inner().ctx.default_chain(), account.1),
                ),
                TxKind::Create => TxKind::Create,
            },
            ..legacy
        }),
    ensures
        forall|prepared: TxEnv| #[trigger]
            evm.prepares(legacy, prepared) <==> evm.prepares(written, prepared),
        evm.gives(legacy, outcome) <==> evm.gives(written, outcome),
{
    assert forall|prepared: TxEnv| #[trigger]
        evm.prepares(legacy, prepared) <==> evm.prepares(written, prepared) by {}
    if evm.gives(written, outcome) {
        let prepared = choose|prepared: TxEnv|
            {
                &&& #[trigger] evm.prepares(written, prepared)
                &&& call_ensures(
                    <DB as ExecuteEvm<I, P>>::transact,
                    (
                        &EthEvmContext { tx: prepared, ..evm.inner().ctx },
                        &evm.inner().precompiles,
                    ),
                    outcome,
                )
            };
        assert(evm.prepares(legacy, prepared));
    }
}

/// The chains of the accounts of a system call do not matter: where the addresses are the same, so
/// are the possible outcomes, and there is but one result, one error and one state where a run of
/// such a call has but one outcome.
pub proof fn law_chains_of_a_system_call_do_not_matter<DB: ExecuteEvm<I, P>, I, P>(
    evm: EthEvm<DB, I, P>,
    caller: ChainAddress,
    other_caller: ChainAddress,
    contract: ChainAddress,
    other_contract: ChainAddress,
    data: Vec<u8>,
    outcome: Result<
        ResultAndState<String, Vec<(Address, DB::Account)>, DB::StateChanges>,
        DB::Error,
    >,
    other_outcome: Result<
        ResultAndState<String, Vec<(Address, DB::Account)>, DB::StateChanges>,
        DB::Error,
    >,
)
    requires
        caller.1 == other_caller.1,
        contract.1 == other_contract.1,
    ensures
        evm.answers(caller, contract, data, outcome) <==> evm.answers(
            other_caller,
            other_contract,
            data,
            outcome,
        ),
        ({
            &&& evm.answers(caller, contract, data, outcome)
            &&& evm.answers(other_caller, other_contract, data, other_outcome)
            &&& forall|
                first: Result<
                    ResultAndState<String, Vec<(Address, DB::Account)>, DB::StateChanges>,
                    DB::Error,
                >,
                second: Result<
                    ResultAndState<String, Vec<(Address, DB::Account)>, DB::StateChanges>,
                    DB::Error,
                >,
            |
                {
                    &&& #[trigger] call_ensures(
                        <DB as ExecuteEvm<I, P>>::system_call_with_caller,
                        (&evm.inner().ctx, &evm.inner().precompiles, caller.1, contract.1, data),
                        first,
                    )
                    &&& #[trigger] call_ensures(
                        <DB as ExecuteEvm<I, P>>::system_call_with_caller,
                        (&evm.inner().ctx, &evm.inner().precompiles, caller.1, contract.1, data),
                        second,
                    )
                } ==> first == second
        }) ==> match (outcome, other_outcome) {
            (Ok(done), Ok(other)) => {
                &&& done.result == other.result
                &&& done.state@ == other.state@
                &&& done.state_changes == other.state_changes
            },
            (Err(error), Err(other)) => error == other,
            _ => false,
        },
{
}

/// After any number of executions a machine gives back the database and the environment that it
/// was built with: with `machines` the machine as it was built and as each execution left it, the
/// last holds what the first does.
pub proof fn law_executions_keep_what_was_built<DB: MultiDatabase, I, P>(
    machines: Seq<EthEvm<DB, I, P>>,
)
    requires
        machines.len() > 0,
        forall|i: int|
            0 <= i < machines.len() - 1 ==> evm::holds_the_same(
                #[trigger] machines[i],
                machines[i + 1],
            ),
    ensures
        machines.last().db() == machines.first().db(),
        machines.last().env() == machines.first().env(),
    decreases machines.len(),
{
    if machines.len() > 1 {
        let before = machines.drop_last();
        assert forall|i: int| 0 <= i < before.len() - 1 implies evm::holds_the_same(
            #[trigger] before[i],
            before[i + 1],
        ) by {
            assert(evm::holds_the_same(machines[i], machines[i + 1]));
        }
        law_executions_keep_what_was_built(before);
        assert(evm::holds_the_same(machines[machines.len() - 2], machines[machines.len() - 1]));
    }
}

} // verus!
