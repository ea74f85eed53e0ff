//! How receipts are made.

use vstd::prelude::*;

use crate::evm::Evm;
use crate::result::ExecutionResult;

verus! {

/// What a receipt is made of.
pub struct ReceiptBuilderCtx<'t, T, E: Evm> {
    /// The transaction.
    pub tx: &'t T,
    /// The machine that executed it.
    pub evm: &'t E,
    /// The result of the execution.
    pub result: ExecutionResult<E::HaltReason>,
    /// The accounts that the execution touched, as it left them.
    pub state: &'t E::State,
    /// The gas that the transactions of the block have spent up to and with this one.
    pub cumulative_gas_used: u64,
}

/// Makes receipts of the transactions that a machine of type `E` executed.
pub trait ReceiptBuilder<E: Evm> {
    /// The transactions.
    type Transaction;

    /// The receipts.
    type Receipt;

    /// Makes the receipt of a transaction.
    fn build_receipt(&self, ctx: ReceiptBuilderCtx<'_, Self::Transaction, E>) -> Self::Receipt;
}

impl<E: Evm, B: ReceiptBuilder<E>> ReceiptBuilder<E> for &B {
    type Transaction = B::Transaction;

    type Receipt = B::Receipt;

    fn build_receipt(&self, ctx: ReceiptBuilderCtx<'_, B::Transaction, E>) -> (receipt:
        B::Receipt)
        ensures
            call_ensures(B::build_receipt, (*self, ctx), receipt),
    {
        (**self).build_receipt(ctx)
    }
}

} // verus!
