//! Calls on the empty database.

use std::collections::HashMap;

use alloy_evm::env::{CfgEnv, EvmEnv};
use alloy_evm::eth::{EthEvmBuilder, EthEvmFactory};
use alloy_evm::evm::{Evm, EvmFactory};
use alloy_evm::precompiles::{PrecompileSpecId, PrecompilesMap, SpecId};
use alloy_evm::primitives::{Address, ChainAddress};
use alloy_evm::result::ExecutionStatus;
use revm::database_interface::EmptyDB;

const SPECS: [SpecId; 20] = [
    SpecId::Frontier,
    SpecId::FrontierThawing,
    SpecId::Homestead,
    SpecId::DaoFork,
    SpecId::Tangerine,
    SpecId::SpuriousDragon,
    SpecId::Byzantium,
    SpecId::Constantinople,
    SpecId::Petersburg,
    SpecId::Istanbul,
    SpecId::MuirGlacier,
    SpecId::Berlin,
    SpecId::London,
    SpecId::ArrowGlacier,
    SpecId::GrayGlacier,
    SpecId::Merge,
    SpecId::Shanghai,
    SpecId::Cancun,
    SpecId::Prague,
    SpecId::Osaka,
];

fn low(number: u16) -> Address {
    let mut address: Address = [0; 20];
    address[18] = (number / 256) as u8;
    address[19] = (number % 256) as u8;
    address
}

fn env(spec: SpecId) -> EvmEnv {
    EvmEnv::new(CfgEnv::new_with_spec(spec), HashMap::new())
}

#[test]
fn test_evm_transact_system_call() {
    let env = EvmEnv::default();
    let mut evm = EthEvmBuilder::new(EmptyDB::default(), env).build();
    let caller = ChainAddress::new(1, [0; 20]);
    let contract = ChainAddress::new(
        1,
        [
            0x47, 0x88, 0x62, 0x9a, 0xbc, 0x6c, 0xfc, 0xa1, 0x0f, 0x9f, 0x96, 0x9e, 0xfd, 0xea,
            0xa1, 0xcf, 0x70, 0xc2, 0x35, 0x55,
        ],
    );
    let data: Vec<u8> = Vec::default();
    let r = evm.transact_system_call(caller, contract, data);
    assert!(r.is_ok());
}

#[test]
fn a_call_of_an_account_without_code_does_nothing() {
    let contract: Address = [0x35; 20];
    for spec in SPECS {
        for caller in [[0; 20], [0x35; 20], low(1)] {
            let mut evm = EthEvmBuilder::new(EmptyDB::default(), env(spec)).build();
            let done = evm
                .transact_system_call(
                    ChainAddress::new(1, caller),
                    ChainAddress::new(8, contract),
                    vec![1, 2, 3],
                )
                .unwrap();
            assert_eq!(done.status, ExecutionStatus::Success);
            assert_eq!(done.gas_used, 0);
            assert!(done.output.is_empty());
            assert_eq!(done.state, vec![contract]);
        }
    }
}

#[test]
fn the_identity_contract_returns_its_input() {
    for spec in SPECS {
        let mut evm = EthEvmBuilder::new(EmptyDB::default(), env(spec)).build();
        let done = evm
            .transact_system_call(
                ChainAddress::new(1, [7; 20]),
                ChainAddress::new(1, low(4)),
                vec![9; 33],
            )
            .unwrap();
        assert_eq!(done.status, ExecutionStatus::Success);
        assert_eq!(done.output, vec![9; 33]);
        assert_eq!(done.gas_used, 15 + 3 * 2);
        assert_eq!(done.state, vec![low(4)]);
    }
}

#[test]
fn the_hash_contract_returns_a_hash() {
    let mut evm = EthEvmFactory.create_evm_env((), EvmEnv::default());
    let done = evm
        .transact_system_call(
            ChainAddress::new(1, [0; 20]),
            ChainAddress::new(1, low(2)),
            vec![],
        )
        .unwrap();
    assert_eq!(done.output[..4], [0xe3, 0xb0, 0xc4, 0x42]);
    assert_eq!(done.output.len(), 32);
    assert_eq!(done.gas_used, 60);
}

#[test]
fn a_contract_that_refuses_its_input_halts() {
    let mut evm = EthEvmBuilder::new(EmptyDB::default(), env(SpecId::Prague)).build();
    let done = evm
        .transact_system_call(
            ChainAddress::new(1, [0; 20]),
            ChainAddress::new(1, low(9)),
            vec![1],
        )
        .unwrap();
    assert!(matches!(done.status, ExecutionStatus::Halt(_)));
    assert_eq!(done.gas_used, 30_000_000);
    assert_eq!(done.state, vec![low(9)]);
}

#[test]
fn given_precompiles_decide_what_is_called() {
    let homestead = PrecompilesMap::from_static(PrecompileSpecId::Homestead, false);
    let mut evm = EthEvmBuilder::new(EmptyDB::default(), env(SpecId::Prague))
        .precompiles(homestead)
        .build();
    let done = evm
        .transact_system_call(
            ChainAddress::new(1, [0; 20]),
            ChainAddress::new(1, low(9)),
            vec![1],
        )
        .unwrap();
    assert_eq!(done.status, ExecutionStatus::Success);
    assert_eq!(done.gas_used, 0);
}

#[test]
fn the_factory_makes_machines_over_the_empty_database() {
    let mut evm = EthEvmFactory.create_evm((), env(SpecId::Cancun), "ignored");
    assert_eq!(evm.chain_id(), 1);
    assert_eq!(evm.precompiles_mut().spec_id(), PrecompileSpecId::Cancun);
    let (_db, env) = evm.finish();
    assert_eq!(*env.spec_id(), SpecId::Cancun);
}

#[test]
fn rules_select_their_precompiles() {
    let expected = [
        (PrecompileSpecId::Homestead, 0, 5),
        (PrecompileSpecId::Byzantium, 6, 8),
        (PrecompileSpecId::Istanbul, 9, 10),
        (PrecompileSpecId::Berlin, 11, 16),
        (PrecompileSpecId::Cancun, 17, 17),
        (PrecompileSpecId::Prague, 18, 18),
        (PrecompileSpecId::Osaka, 19, 19),
    ];
    for spec in SPECS {
        let id = PrecompileSpecId::from_spec_id(spec);
        let index = spec.as_u8();
        let matching =
            expected.iter().filter(|(_, first, last)| *first <= index && index <= *last);
        assert_eq!(matching.map(|(id, _, _)| *id).collect::<Vec<_>>(), vec![id]);
        assert_eq!(PrecompileSpecId::from_spec_id(id.first_spec_id()), id);
    }
    assert_eq!(SPECS[3].as_u8(), 3);
    assert_eq!(SpecId::default(), SpecId::Prague);
}

#[test]
fn precompiles_stand_at_low_addresses() {
    let expected = [
        (PrecompileSpecId::Homestead, 4),
        (PrecompileSpecId::Byzantium, 8),
        (PrecompileSpecId::Istanbul, 9),
        (PrecompileSpecId::Berlin, 9),
        (PrecompileSpecId::Cancun, 10),
        (PrecompileSpecId::Prague, 17),
        (PrecompileSpecId::Osaka, 17),
    ];
    for (id, last) in expected {
        let map = PrecompilesMap::from_static(id, false);
        assert_eq!(map.spec_id(), id);
        for number in 0..600 {
            let found = 1 <= number && number <= last
                || id == PrecompileSpecId::Osaka && number == 256;
            assert_eq!(map.contains(&low(number)), found);
        }
        let mut high = low(1);
        high[0] = 1;
        assert!(!map.contains(&high));
    }
}

#[test]
fn later_rules_keep_the_precompiles() {
    for (earlier, pair) in SPECS.windows(2).enumerate() {
        let before = PrecompilesMap::from_static(PrecompileSpecId::from_spec_id(pair[0]), false);
        let after = PrecompilesMap::from_static(PrecompileSpecId::from_spec_id(pair[1]), true);
        for number in 0..300 {
            assert!(!before.contains(&low(number)) || after.contains(&low(number)), "{earlier}");
        }
    }
}
