//! The stub of the OP machine.

use std::collections::HashMap;

use alloy_evm::env::{CfgEnv, EvmEnv};
use alloy_evm::op::OpEvmFactory;
use op_revm::OpSpecId;

#[test]
fn the_stub_belongs_to_mainnet() {
    let cfg = CfgEnv { chain_id: 10, ..CfgEnv::new_with_spec(OpSpecId::default()) };
    let evm = OpEvmFactory::default().create_evm("database", EvmEnv::new(cfg, HashMap::new()));
    assert_eq!(evm.chain_id(), 1);
    assert_eq!(*evm.precompiles(), ());
}

#[test]
fn the_stub_ignores_its_inspector() {
    let input: EvmEnv<OpSpecId> = EvmEnv::default();
    let mut evm = OpEvmFactory::default().create_evm_with_inspector("database", input, 5u8);
    evm.set_inspector_enabled(true);
    evm.set_inspector_enabled(false);
    assert_eq!(evm.chain_id(), 1);
}
