//! Verified core of a multi-chain Ethereum block executor.

pub mod balances;
pub mod empty;
pub mod env;
pub mod error;
pub mod eth;
pub mod evm;
pub mod hardforks;
pub mod laws;
pub mod op;
pub mod precompiles;
pub mod primitives;
pub mod requests;
pub mod result;
pub mod tx;
