//! Sums, balance increments and gas counters.

use std::collections::HashMap;

use alloy_evm::balances::{checked_sum, BalanceIncrements};
use alloy_evm::eth::gas::{count_gas, gas_fits};
use alloy_evm::primitives::{same_address, ChainAddress};

#[test]
fn sums_are_exact_or_absent() {
    assert_eq!(checked_sum(&vec![]), Some(0));
    assert_eq!(checked_sum(&vec![1, 2, 3]), Some(6));
    assert_eq!(checked_sum(&vec![u128::MAX, 0]), Some(u128::MAX));
    assert_eq!(checked_sum(&vec![u128::MAX, 1]), None);
    assert_eq!(checked_sum(&vec![1, u128::MAX]), None);
}

#[test]
fn amounts_for_one_address_add_up() {
    let mut increments = BalanceIncrements::new();
    assert_eq!(increments.get(&[1; 20]), None);
    increments.add([1; 20], 5);
    increments.add([2; 20], 0);
    increments.add([1; 20], 7);
    assert_eq!(increments.get(&[1; 20]), Some(12));
    assert_eq!(increments.get(&[2; 20]), Some(0));
    assert_eq!(increments.get(&[3; 20]), None);
}

#[test]
fn an_amount_must_fit() {
    let mut increments = BalanceIncrements::new();
    increments.add([1; 20], u128::MAX - 1);
    assert!(increments.can_add(&[1; 20], 1));
    assert!(!increments.can_add(&[1; 20], 2));
    assert!(increments.can_add(&[2; 20], u128::MAX));
}

#[test]
fn increments_are_listed_once_for_the_chain() {
    let mut increments = BalanceIncrements::new();
    increments.add([1; 20], 5);
    increments.add([2; 20], 6);
    increments.add([1; 20], 1);
    let mut listed = increments.on_chain(9);
    listed.sort_by_key(|(account, _)| account.1);
    assert_eq!(
        listed,
        vec![(ChainAddress::new(9, [1; 20]), 6), (ChainAddress::new(9, [2; 20]), 6)]
    );
    assert_eq!(listed.iter().map(|(_, amount)| amount).sum::<u128>(), 12);
    assert!(BalanceIncrements::new().on_chain(9).is_empty());
}

#[test]
fn addresses_differ_in_any_byte() {
    let mut other = [4; 20];
    assert!(same_address(&[4; 20], &other));
    other[19] = 5;
    assert!(!same_address(&[4; 20], &other));
    other[19] = 4;
    other[0] = 0;
    assert!(!same_address(&[4; 20], &other));
}

#[test]
fn gas_is_counted_by_chain() {
    let mut counters: HashMap<u64, u64> = HashMap::new();
    count_gas(&mut counters, &vec![(1, 10), (2, 20), (1, 5)]);
    count_gas(&mut counters, &vec![(3, 0)]);
    assert_eq!(counters.len(), 3);
    assert_eq!(counters[&1], 15);
    assert_eq!(counters[&2], 20);
    assert_eq!(counters[&3], 0);
}

#[test]
fn gas_counted_in_steps_is_gas_counted_at_once() {
    let mut steps: HashMap<u64, u64> = HashMap::new();
    count_gas(&mut steps, &vec![(1, 10), (2, 20)]);
    count_gas(&mut steps, &vec![(2, 1), (4, 3)]);
    let mut once: HashMap<u64, u64> = HashMap::new();
    count_gas(&mut once, &vec![(1, 10), (2, 20), (2, 1), (4, 3)]);
    assert_eq!(steps, once);
}

#[test]
fn other_chains_keep_their_gas() {
    let mut counters: HashMap<u64, u64> = [(7, 70)].into_iter().collect();
    count_gas(&mut counters, &vec![(8, 80)]);
    assert_eq!(counters[&7], 70);
    assert_eq!(counters[&8], 80);
}

#[test]
fn gas_that_does_not_fit_is_found() {
    let counters: HashMap<u64, u64> = [(1, u64::MAX - 5)].into_iter().collect();
    assert!(gas_fits(&counters, &vec![(1, 5)]));
    assert!(gas_fits(&counters, &vec![(1, 2), (2, u64::MAX), (1, 3)]));
    assert!(!gas_fits(&counters, &vec![(1, 6)]));
    assert!(!gas_fits(&counters, &vec![(1, 3), (1, 3)]));
    assert!(!gas_fits(&counters, &vec![(2, u64::MAX), (2, 1)]));
    assert!(gas_fits(&counters, &vec![]));
}
