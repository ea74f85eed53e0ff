//! What can go wrong in the execution of a block.

use vstd::prelude::*;

use crate::primitives::B256;

verus! {

/// A block or one of its transactions is not valid.
#[derive(Debug, Clone, PartialEq, Eq)]
pub enum BlockValidationError {
    /// The gas limit of a transaction exceeds the gas that is left in the block.
    TransactionGasLimitMoreThanAvailableBlockGas {
        /// The gas limit of the transaction.
        transaction_gas_limit: u64,
        /// The gas that is left in the block.
        block_available_gas: u64,
    },
    /// A balance could not be drained or incremented.
    IncrementBalanceFailed,
    /// The deposit requests could not be read from the receipts.
    DepositRequestDecode(String),
    /// A call of a system contract failed.
    SystemContractCall(String),
}

/// The execution of a block failed.
#[derive(Debug, Clone, PartialEq, Eq)]
pub enum BlockExecutionError<EvmError> {
    /// The block is not valid.
    Validation(BlockValidationError),
    /// The machine could not execute a transaction.
    Evm {
        /// The hash of the transaction.
        hash: B256,
        /// The error of the machine.
        error: EvmError,
    },
    /// The gas that a transaction spent does not fit in the counters of the block.
    GasOverflow,
}

impl<EvmError> BlockExecutionError<EvmError> {
    /// The machine could not execute the transaction with the hash `hash`.
    pub fn evm(error: EvmError, hash: B256) -> (wrapped: Self)
        ensures
            wrapped == (BlockExecutionError::Evm { hash, error }),
    {
        BlockExecutionError::Evm { hash, error }
    }
}

impl<EvmError> From<BlockValidationError> for BlockExecutionError<EvmError> {
    fn from(error: BlockValidationError) -> (wrapped: Self) {
        BlockExecutionError::Validation(error)
    }
}

impl<EvmError> vstd::std_specs::convert::FromSpecImpl<BlockValidationError> for BlockExecutionError<EvmError> {
    open spec fn obeys_from_spec() -> bool {
        true
    }

    open spec fn from_spec(error: BlockValidationError) -> Self {
        BlockExecutionError::Validation(error)
    }
}

} // verus!
