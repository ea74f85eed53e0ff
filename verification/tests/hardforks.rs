//! Fork conditions and schedules.

use alloy_evm::hardforks::{EthExecutorSpec, EthSpec, EthereumHardfork, ForkCondition};
use alloy_evm::primitives::U256;

fn merge() -> ForkCondition {
    ForkCondition::TTD {
        activation_block_number: 15_537_394,
        fork_block: None,
        total_difficulty: U256 { limbs: [0xc70d_808a_128d_7380, 0xc70, 0, 0] },
    }
}

#[test]
fn a_block_condition_holds_from_its_block_on() {
    let condition = ForkCondition::Block(10);
    assert!(!condition.active_at_block(9));
    assert!(condition.active_at_block(10));
    assert!(condition.active_at_block(u64::MAX));
    assert!(!condition.active_at_timestamp(u64::MAX));
}

#[test]
fn a_difficulty_condition_holds_from_its_activation_block_on() {
    assert!(!merge().active_at_block(15_537_393));
    assert!(merge().active_at_block(15_537_394));
    assert!(!merge().active_at_timestamp(u64::MAX));
    assert!(!merge().transitions_at_block(15_537_394));
}

#[test]
fn a_timestamp_condition_holds_from_its_time_on() {
    let condition = ForkCondition::Timestamp(100);
    assert!(!condition.active_at_timestamp(99));
    assert!(condition.active_at_timestamp(100));
    assert!(!condition.active_at_block(u64::MAX));
    assert!(!condition.transitions_at_block(100));
}

#[test]
fn a_fork_that_never_comes_is_never_active() {
    let condition = ForkCondition::Never;
    assert!(!condition.active_at_block(u64::MAX));
    assert!(!condition.active_at_timestamp(u64::MAX));
    assert!(!condition.transitions_at_block(0));
}

#[test]
fn only_the_first_block_of_a_fork_is_its_transition() {
    let condition = ForkCondition::Block(10);
    for number in 0..20 {
        assert_eq!(condition.transitions_at_block(number), number == 10);
        assert_eq!(condition.active_at_block(number), number >= 10);
    }
}

#[test]
fn mainnet_activates_its_forks_when_it_did() {
    let spec = EthSpec::mainnet();
    let dao = spec.ethereum_fork_activation(EthereumHardfork::Dao);
    assert!(matches!(dao, ForkCondition::Block(1_920_000)));
    assert!(!spec.is_spurious_dragon_active_at_block(2_674_999));
    assert!(spec.is_spurious_dragon_active_at_block(2_675_000));
    assert!(!spec.is_prague_active_at_timestamp(1_746_612_310));
    assert!(spec.is_prague_active_at_timestamp(1_746_612_311));
}

#[test]
fn a_reference_to_a_schedule_is_a_schedule() {
    let spec = EthSpec::mainnet();
    let by_reference = &spec;
    assert!(EthExecutorSpec::is_prague_active_at_timestamp(&by_reference, 1_746_612_311));
    let condition = EthExecutorSpec::ethereum_fork_activation(&by_reference, EthereumHardfork::Dao);
    assert!(condition.transitions_at_block(1_920_000));
}

#[test]
fn a_large_number_saturates() {
    assert_eq!(U256::from_u64(5).saturating_to(), 5);
    assert_eq!(U256 { limbs: [u64::MAX, 0, 0, 0] }.saturating_to(), u64::MAX);
    assert_eq!(U256 { limbs: [5, 1, 0, 0] }.saturating_to(), u64::MAX);
    assert_eq!(U256 { limbs: [0, 0, 0, 1] }.saturating_to(), u64::MAX);
}
