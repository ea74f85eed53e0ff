//! Plain values that identify accounts, blocks and chains.

use vstd::prelude::*;

verus! {

/// A 20-byte account address.
pub type Address = [u8; 20];

/// A 32-byte hash.
pub type B256 = [u8; 32];

/// A 256-bit unsigned integer, as four 64-bit limbs with the least significant first.
#[derive(Debug, Clone, Copy)]
pub struct U256 {
    /// The limbs, least significant first.
    pub limbs: [u64; 4],
}

impl View for U256 {
    type V = nat;

    /// The number that the limbs stand for.
    open spec fn view(&self) -> nat {
        let base = 0x1_0000_0000_0000_0000int;
        (self.limbs@[0] + base * (self.limbs@[1] + base * (self.limbs@[2] + base
            * self.limbs@[3]))) as nat
    }
}

/// The number `value` in 64 bits, or the largest 64-bit number where it does not fit.
pub open spec fn saturated(value: nat) -> u64 {
    if value <= u64::MAX {
        value as u64
    } else {
        u64::MAX
    }
}

impl U256 {
    /// The 256-bit integer with the value of `value`.
    pub fn from_u64(value: u64) -> (word: U256)
        ensures
            word@ == value,
    {
        U256 { limbs: [value, 0, 0, 0] }
    }

    /// The value in 64 bits, or `u64::MAX` where it does not fit.
    pub fn saturating_to(&self) -> (low: u64)
        ensures
            low == saturated(self@),
    {
        limbs_saturating_to_u64(self.limbs)
    }
}

/// The number with the limbs `limbs` in 64 bits.
///
/// This calls `alloy_primitives::U256::saturating_to`. The contract claims that the call keeps
/// every value up to `u64::MAX` and turns every larger one into `u64::MAX`.
#[verifier::external_body]
fn limbs_saturating_to_u64(limbs: [u64; 4]) -> (low: u64)
    ensures
        low == saturated((U256 { limbs })@),
{
    alloy_primitives::U256::from_limbs(limbs).saturating_to::<u64>()
}

/// An account on one of the chains: the chain's id and the address there.
#[derive(Debug, Clone, Copy, PartialEq, Eq)]
pub struct ChainAddress(pub u64, pub Address);

impl ChainAddress {
    /// The account at `address` on the chain `chain_id`.
    pub fn new(chain_id: u64, address: Address) -> (account: Self)
        ensures
            account == ChainAddress(chain_id, address),
    {
        ChainAddress(chain_id, address)
    }
}

/// Whether two addresses are the same.
pub fn same_address(left: &Address, right: &Address) -> (same: bool)
    ensures
        same == (*left == *right),
{
    let mut i: usize = 0;
    while i < 20
        invariant
            i <= 20,
            forall|j: int| 0 <= j < i ==> left@[j] == right@[j],
        decreases 20 - i,
    {
        if left[i] != right[i] {
            assert(left@[i as int] != right@[i as int]);
            return false;
        }
        i += 1;
    }
    assert(*left =~= *right);
    true
}

} // verus!
