//! The OP virtual machine.
//!
//! It is a stub: it knows its chain and nothing else, and executes nothing.

use core::marker::PhantomData;

use op_revm::OpSpecId;

use vstd::prelude::*;

use crate::env::EvmEnv;
use crate::evm::NoOpInspector;

verus! {

/// The OP rules of `op_revm`.
#[verifier::external_type_specification]
#[verifier::external_body]
pub struct ExOpSpecId(OpSpecId);

/// Stub of the OP virtual machine.
#[derive(Debug)]
pub struct OpEvm<DB, I> {
    _db: PhantomData<DB>,
    _inspector: PhantomData<I>,
}

impl<DB, I> OpEvm<DB, I> {
    /// The stub. It holds neither a database nor an environment.
    pub closed spec fn stub() -> Self {
        OpEvm { _db: PhantomData, _inspector: PhantomData }
    }

    /// Returns the chain of the machine, which is mainnet.
    pub fn chain_id(&self) -> (chain_id: u64)
        ensures
            chain_id == 1,
    {
        1
    }

    /// Turns the inspector on or off, which does nothing.
    pub fn set_inspector_enabled(&mut self, _enabled: bool)
        ensures
            *final(self) == *old(self),
    {
    }

    /// Returns the precompiled contracts, of which there are none.
    pub fn precompiles(&self) -> (precompiles: &())
        ensures
            *precompiles == (),
    {
        &()
    }
}

/// Factory for [`OpEvm`].
#[derive(Debug, Default, Clone, Copy)]
#[non_exhaustive]
pub struct OpEvmFactory;

impl OpEvmFactory {
    /// Creates a machine without an inspector. The database and the environment are dropped.
    pub fn create_evm<DB>(&self, _db: DB, _input: EvmEnv<OpSpecId>) -> (evm: OpEvm<
        DB,
        NoOpInspector,
    >)
        ensures
            evm == OpEvm::<DB, NoOpInspector>::stub(),
    {
        OpEvm { _db: PhantomData, _inspector: PhantomData }
    }

    /// Creates a machine. The database, the environment and the inspector are dropped.
    pub fn create_evm_with_inspector<DB, I>(
        &self,
        _db: DB,
        _input: EvmEnv<OpSpecId>,
        _inspector: I,
    ) -> (evm: OpEvm<DB, I>)
        ensures
            evm == OpEvm::<DB, I>::stub(),
    {
        OpEvm { _db: PhantomData, _inspector: PhantomData }
    }
}

} // verus!
