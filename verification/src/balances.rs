//! Balances that change at the end of a block.

use vstd::prelude::*;

use crate::primitives::{same_address, Address, ChainAddress};

verus! {

/// The sum of amounts.
pub open spec fn sum(amounts: Seq<u128>) -> int
    decreases amounts.len(),
{
    if amounts.len() == 0 {
        0
    } else {
        sum(amounts.drop_last()) + amounts.last()
    }
}

/// No part of a list sums up to more than the whole.
proof fn lemma_sum_of_prefix(amounts: Seq<u128>, n: int)
    requires
        0 <= n <= amounts.len(),
    ensures
        0 <= sum(amounts.take(n)) <= sum(amounts),
    decreases amounts.len(),
{
    if n == amounts.len() {
        assert(amounts.take(n) =~= amounts);
        if n > 0 {
            lemma_sum_of_prefix(amounts.drop_last(), n - 1);
            assert(amounts.drop_last().take(n - 1) =~= amounts.drop_last());
        }
    } else {
        lemma_sum_of_prefix(amounts.drop_last(), n);
        assert(amounts.drop_last().take(n) =~= amounts.take(n));
    }
}

/// Sums amounts up, and returns `None` where the sum does not fit.
pub fn checked_sum(amounts: &Vec<u128>) -> (total: Option<u128>)
    ensures
        total is Some <==> sum(amounts@) <= u128::MAX,
        total matches Some(t) ==> t == sum(amounts@),
{
    let mut total: u128 = 0;
    let mut i: usize = 0;
    while i < amounts.len()
        invariant
            i <= amounts@.len(),
            total == sum(amounts@.take(i as int)),
        decreases amounts@.len() - i,
    {
        proof {
            assert(amounts@.take(i + 1).drop_last() =~= amounts@.take(i as int));
            lemma_sum_of_prefix(amounts@, i + 1);
        }
        match total.checked_add(amounts[i]) {
            Some(next) => {
                total = next;
            },
            None => {
                return None;
            },
        }
        i += 1;
    }
    assert(amounts@.take(i as int) =~= amounts@);
    Some(total)
}

/// The amounts by which balances are increased, at most one for each address.
#[derive(Debug)]
pub struct BalanceIncrements {
    entries: Vec<(Address, u128)>,
}

/// The place of `address` in a list of entries.
spec fn is_entry(entries: Seq<(Address, u128)>, address: Address, i: int) -> bool {
    0 <= i < entries.len() && entries[i].0 == address
}

/// The amounts of a list of entries.
spec fn amounts(entries: Seq<(Address, u128)>) -> Seq<u128> {
    entries.map_values(|entry: (Address, u128)| entry.1)
}

/// To increase one amount increases the sum by as much.
proof fn lemma_sum_of_update(amounts: Seq<u128>, i: int, amount: u128)
    requires
        0 <= i < amounts.len(),
    ensures
        sum(amounts.update(i, amount)) == sum(amounts) - amounts[i] + amount,
    decreases amounts.len(),
{
    let updated = amounts.update(i, amount);
    if i == amounts.len() - 1 {
        assert(updated.drop_last() =~= amounts.drop_last());
    } else {
        assert(updated.drop_last() =~= amounts.drop_last().update(i, amount));
        lemma_sum_of_update(amounts.drop_last(), i, amount);
    }
}

impl BalanceIncrements {
    #[verifier::type_invariant]
    spec fn inv(self) -> bool {
        forall|i: int, j: int|
            0 <= i < self.entries@.len() && 0 <= j < self.entries@.len() && i != j
                ==> self.entries@[i].0 != self.entries@[j].0
    }
}

impl View for BalanceIncrements {
    type V = Map<Address, u128>;

    /// The amount for each address that has one.
    closed spec fn view(&self) -> Map<Address, u128> {
        Map::new(
            |address: Address| exists|i: int| is_entry(self.entries@, address, i),
            |address: Address|
                self.entries@[choose|i: int| is_entry(self.entries@, address, i)].1,
        )
    }
}

impl BalanceIncrements {
    /// The amount for `address`, 0 where it has none.
    pub open spec fn amount(self, address: Address) -> u128 {
        if self@.contains_key(address) {
            self@[address]
        } else {
            0
        }
    }

    /// The sum of all amounts.
    pub closed spec fn total(self) -> int {
        sum(amounts(self.entries@))
    }

    /// No increments.
    pub fn new() -> (increments: Self)
        ensures
            increments@ == Map::<Address, u128>::empty(),
            increments.total() == 0,
    {
        let increments = BalanceIncrements { entries: Vec::new() };
        assert(increments@ =~= Map::<Address, u128>::empty());
        increments
    }

    /// The place of `address` among the entries.
    fn find(&self, address: &Address) -> (place: Option<usize>)
        ensures
            place matches Some(i) ==> is_entry(self.entries@, *address, i as int),
            place is None ==> forall|i: int| !is_entry(self.entries@, *address, i),
    {
        let mut i: usize = 0;
        while i < self.entries.len()
            invariant
                i <= self.entries@.len(),
                forall|j: int| 0 <= j < i ==> self.entries@[j].0 != *address,
            decreases self.entries@.len() - i,
        {
            if same_address(&self.entries[i].0, address) {
                return Some(i);
            }
            i += 1;
        }
        None
    }

    /// The view says of each address what its entry says.
    proof fn lemma_view(&self, address: Address, i: int)
        requires
            self.inv(),
            is_entry(self.entries@, address, i),
        ensures
            self@.contains_key(address),
            self@[address] == self.entries@[i].1,
    {
        let chosen = choose|i: int| is_entry(self.entries@, address, i);
        assert(is_entry(self.entries@, address, chosen));
    }

    /// Returns the amount for `address`, if it has one.
    pub fn get(&self, address: &Address) -> (amount: Option<u128>)
        ensures
            amount is Some <==> self@.contains_key(*address),
            amount matches Some(a) ==> a == self@[*address],
    {
        proof {
            use_type_invariant(self);
        }
        match self.find(address) {
            Some(i) => {
                proof {
                    self.lemma_view(*address, i as int);
                }
                Some(self.entries[i].1)
            },
            None => None,
        }
    }

    /// Whether the amount for `address` still fits when it is increased by `amount`.
    pub fn can_add(&self, address: &Address, amount: u128) -> (fits: bool)
        ensures
            fits == (self.amount(*address) + amount <= u128::MAX),
    {
        match self.get(address) {
            Some(present) => amount <= u128::MAX - present,
            None => true,
        }
    }

    /// Increases the amount for `address`, which starts at 0, by `amount`.
    pub fn add(&mut self, address: Address, amount: u128)
        requires
            old(self).amount(address) + amount <= u128::MAX,
        ensures
            final(self)@ == old(self)@.insert(
                address,
                (old(self).amount(address) + amount) as u128,
            ),
            final(self).total() == old(self).total() + amount,
    {
        proof {
            use_type_invariant(&*self);
        }
        let place = self.find(&address);
        let ghost before = *self;
        let mut entries: Vec<(Address, u128)> = Vec::new();
        std::mem::swap(&mut entries, &mut self.entries);
        match place {
            Some(i) => {
                proof {
                    before.lemma_view(address, i as int);
                    lemma_sum_of_update(
                        amounts(before.entries@),
                        i as int,
                        (before.entries@[i as int].1 + amount) as u128,
                    );
                }
                let increased: u128 = entries[i].1 + amount;
                entries[i] = (address, increased);
                proof {
                    assert(amounts(entries@) =~= amounts(before.entries@).update(
                        i as int,
                        increased,
                    ));
                }
            },
            None => {
                entries.push((address, amount));
                proof {
                    assert forall|i: int| 0 <= i < before.entries@.len() implies #[trigger]
                    before.entries@[i].0 != address by {
                        assert(!is_entry(before.entries@, address, i));
                    }
                    assert(amounts(entries@).drop_last() =~= amounts(before.entries@));
                }
            },
        }
        self.entries = entries;
        proof {
            assert forall|other: Address| self@.contains_key(other) == before@.insert(
                address,
                0,
            ).contains_key(other) by {
                if before@.contains_key(other) {
                    let i = choose|i: int| is_entry(before.entries@, other, i);
                    assert(is_entry(self.entries@, other, i));
                }
                if other == address {
                    let i = if place is Some {
                        place->0 as int
                    } else {
                        before.entries@.len() as int
                    };
                    assert(is_entry(self.entries@, other, i));
                }
                if self@.contains_key(other) && other != address {
                    let i = choose|i: int| is_entry(self.entries@, other, i);
                    assert(is_entry(before.entries@, other, i));
                }
            }
            assert forall|other: Address| #[trigger] self@.contains_key(other) implies self@[other]
                == (if other == address {
                (before.amount(address) + amount) as u128
            } else {
                before@[other]
            }) by {
                let i = choose|i: int| is_entry(self.entries@, other, i);
                self.lemma_view(other, i);
                if other != address {
                    assert(is_entry(before.entries@, other, i));
                    before.lemma_view(other, i);
                }
            }
            assert(self@ =~= before@.insert(address, (before.amount(address) + amount) as u128));
        }
    }

    /// The amounts for the accounts of the chain `chain_id`, in no particular order.
    pub fn on_chain(&self, chain_id: u64) -> (increments: Vec<(ChainAddress, u128)>)
        ensures
            self.is_listed(chain_id, increments@),
            sum(increments@.map_values(|increment: (ChainAddress, u128)| increment.1))
                == self.total(),
    {
        proof {
            use_type_invariant(self);
        }
        let mut increments: Vec<(ChainAddress, u128)> = Vec::new();
        let mut i: usize = 0;
        while i < self.entries.len()
            invariant
                i <= self.entries@.len(),
                increments@.len() == i,
                forall|j: int|
                    0 <= j < i ==> #[trigger] increments@[j] == (
                        ChainAddress(chain_id, self.entries@[j].0),
                        self.entries@[j].1,
                    ),
            decreases self.entries@.len() - i,
        {
            increments.push((ChainAddress::new(chain_id, self.entries[i].0), self.entries[i].1));
            i += 1;
        }
        proof {
            assert forall|j: int| 0 <= j < increments@.len() implies {
                let (account, amount) = #[trigger] increments@[j];
                account.0 == chain_id && self@.contains_key(account.1) && self@[account.1] == amount
            } by {
                assert(is_entry(self.entries@, self.entries@[j].0, j));
                self.lemma_view(self.entries@[j].0, j);
            }
            assert forall|address: Address| #[trigger]
                self@.contains_key(address) implies increments@.contains(
                (ChainAddress(chain_id, address), self@[address]),
            ) by {
                let j = choose|j: int| is_entry(self.entries@, address, j);
                self.lemma_view(address, j);
                assert(increments@[j] == (ChainAddress(chain_id, address), self@[address]));
            }
            assert(increments@.map_values(|increment: (ChainAddress, u128)| increment.1)
                =~= amounts(self.entries@));
        }
        increments
    }

    /// Whether `list` holds exactly the amounts, each once, for accounts of the chain `chain_id`.
    pub open spec fn is_listed(self, chain_id: u64, list: Seq<(ChainAddress, u128)>) -> bool {
        &&& list.no_duplicates()
        &&& forall|j: int|
            0 <= j < list.len() ==> {
                let (account, amount) = #[trigger] list[j];
                account.0 == chain_id && self@.contains_key(account.1) && self@[account.1] == amount
            }
        &&& forall|address: Address| #[trigger]
            self@.contains_key(address) ==> list.contains(
                (ChainAddress(chain_id, address), self@[address]),
            )
    }
}

} // verus!
