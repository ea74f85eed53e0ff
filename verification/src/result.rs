//! What the execution of a transaction gives back.

use vstd::prelude::*;

use crate::primitives::{Address, B256};

verus! {

/// How an execution ended.
#[derive(Debug, Clone, PartialEq, Eq)]
pub enum ExecutionStatus<HaltReason> {
    /// It returned successfully.
    Success,
    /// It was reverted and keeps the gas that was not spent.
    Revert,
    /// It was stopped for the given reason and has spent all its gas.
    Halt(HaltReason),
}

/// A log entry that an execution emitted.
#[derive(Debug, Clone, PartialEq, Eq)]
pub struct Log {
    /// The contract that emitted it.
    pub address: Address,
    /// Its topics.
    pub topics: Vec<B256>,
    /// Its data.
    pub data: Vec<u8>,
}

/// The result of the execution of a transaction.
#[derive(Debug, Clone)]
pub struct ExecutionResult<HaltReason> {
    /// How the execution ended.
    pub status: ExecutionStatus<HaltReason>,
    /// The gas that was spent on all chains together.
    pub gas_used: u64,
    /// The gas that was spent on each chain, as pairs of chain id and gas.
    pub gas_used_per_chain: Vec<(u64, u64)>,
    /// The data that the execution returned.
    pub output: Vec<u8>,
    /// The log entries that it emitted.
    pub logs: Vec<Log>,
}

impl<HaltReason> ExecutionResult<HaltReason> {
    /// Whether the execution was successful.
    pub fn is_success(&self) -> (success: bool)
        ensures
            success == (self.status is Success),
    {
        match self.status {
            ExecutionStatus::Success => true,
            ExecutionStatus::Revert => false,
            ExecutionStatus::Halt(_) => false,
        }
    }

    /// Returns the gas that was spent.
    pub fn gas_used(&self) -> (gas: u64)
        ensures
            gas == self.gas_used,
    {
        self.gas_used
    }
}

/// The result of the execution of a transaction and what it did to the state.
#[derive(Debug, Clone)]
pub struct ResultAndState<HaltReason, State, StateChanges> {
    /// The result.
    pub result: ExecutionResult<HaltReason>,
    /// The accounts that the execution touched, as it left them.
    pub state: State,
    /// The changes to the state, in the form in which a block collects them.
    pub state_changes: StateChanges,
}

} // verus!
