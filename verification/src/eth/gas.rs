//! Counters for the gas that a block spends on each chain.

use std::collections::HashMap;

use vstd::prelude::*;

verus! {

broadcast use vstd::std_specs::hash::group_hash_axioms;

/// The gas that a list of pairs of chain id and gas gives for the chain `chain_id`.
pub open spec fn listed(list: Seq<(u64, u64)>, chain_id: u64) -> int
    decreases list.len(),
{
    if list.len() == 0 {
        0
    } else if list.last().0 == chain_id {
        listed(list.drop_last(), chain_id) + list.last().1
    } else {
        listed(list.drop_last(), chain_id)
    }
}

/// Whether a list of pairs of chain id and gas names the chain `chain_id`.
pub open spec fn is_named(list: Seq<(u64, u64)>, chain_id: u64) -> bool {
    exists|i: int| 0 <= i < list.len() && (#[trigger] list[i]).0 == chain_id
}

/// The gas that the counters hold for the chain `chain_id`, 0 where there is no counter.
pub open spec fn counted(counters: Map<u64, u64>, chain_id: u64) -> u64 {
    if counters.contains_key(chain_id) {
        counters[chain_id]
    } else {
        0
    }
}

/// Whether the counters have room for the gas of `list`.
pub open spec fn has_room(counters: Map<u64, u64>, list: Seq<(u64, u64)>) -> bool {
    forall|chain_id: u64|
        counted(counters, chain_id) + #[trigger] listed(list, chain_id) <= u64::MAX
}

/// The counters with the gas of `list` added. A chain that the list names has a counter
/// afterwards.
pub open spec fn count(counters: Map<u64, u64>, list: Seq<(u64, u64)>) -> Map<u64, u64> {
    Map::new(
        |chain_id: u64| counters.contains_key(chain_id) || is_named(list, chain_id),
        |chain_id: u64| (counted(counters, chain_id) + listed(list, chain_id)) as u64,
    )
}

/// No part of a list gives more gas for a chain than the whole.
proof fn lemma_listed_in_prefix(list: Seq<(u64, u64)>, n: int, chain_id: u64)
    requires
        0 <= n <= list.len(),
    ensures
        0 <= listed(list.take(n), chain_id) <= listed(list, chain_id),
    decreases list.len(),
{
    if n == list.len() {
        assert(list.take(n) =~= list);
        if n > 0 {
            lemma_listed_in_prefix(list.drop_last(), n - 1, chain_id);
            assert(list.drop_last().take(n - 1) =~= list.drop_last());
        }
    } else {
        lemma_listed_in_prefix(list.drop_last(), n, chain_id);
        assert(list.drop_last().take(n) =~= list.take(n));
    }
}

/// No list gives less than no gas.
pub proof fn lemma_listed_is_not_negative(list: Seq<(u64, u64)>, chain_id: u64)
    ensures
        0 <= listed(list, chain_id),
{
    lemma_listed_in_prefix(list, 0, chain_id);
}

/// A chain that a list does not name gets no gas from it.
pub proof fn lemma_unnamed(list: Seq<(u64, u64)>, chain_id: u64)
    requires
        !is_named(list, chain_id),
    ensures
        listed(list, chain_id) == 0,
    decreases list.len(),
{
    if list.len() > 0 {
        assert(list[list.len() - 1].0 != chain_id);
        assert(!is_named(list.drop_last(), chain_id)) by {
            if is_named(list.drop_last(), chain_id) {
                let i = choose|i: int|
                    0 <= i < list.drop_last().len() && (#[trigger] list.drop_last()[i]).0
                        == chain_id;
                assert(list[i].0 == chain_id);
            }
        }
        lemma_unnamed(list.drop_last(), chain_id);
    }
}

/// To count one more entry of a list is to add its gas to its counter.
proof fn lemma_count_next(counters: Map<u64, u64>, list: Seq<(u64, u64)>, n: int)
    requires
        0 <= n < list.len(),
        has_room(counters, list),
    ensures
        ({
            let so_far = count(counters, list.take(n));
            let (chain_id, gas) = list[n];
            &&& counted(so_far, chain_id) + gas <= u64::MAX
            &&& count(counters, list.take(n + 1)) == so_far.insert(
                chain_id,
                (counted(so_far, chain_id) + gas) as u64,
            )
        }),
{
    let so_far = count(counters, list.take(n));
    let next = count(counters, list.take(n + 1));
    let (chain_id, gas) = list[n];
    assert(list.take(n + 1).drop_last() =~= list.take(n));
    assert forall|id: u64| true implies counted(so_far, id) == counted(counters, id) + listed(
        list.take(n),
        id,
    ) && #[trigger] listed(list.take(n + 1), id) <= listed(list, id) by {
        lemma_listed_in_prefix(list, n, id);
        lemma_listed_in_prefix(list, n + 1, id);
        if !is_named(list.take(n), id) {
            lemma_unnamed(list.take(n), id);
        }
    }
    assert(listed(list.take(n + 1), chain_id) == listed(list.take(n), chain_id) + gas);
    assert forall|id: u64| #[trigger]
        is_named(list.take(n + 1), id) == (is_named(list.take(n), id) || id == chain_id) by {
        if is_named(list.take(n), id) {
            let i = choose|i: int|
                0 <= i < list.take(n).len() && (#[trigger] list.take(n)[i]).0 == id;
            assert(list.take(n + 1)[i].0 == id);
        }
        if id == chain_id {
            assert(list.take(n + 1)[n].0 == id);
        }
        if is_named(list.take(n + 1), id) && id != chain_id {
            let i = choose|i: int|
                0 <= i < list.take(n + 1).len() && (#[trigger] list.take(n + 1)[i]).0 == id;
            assert(list.take(n)[i].0 == id);
        }
    }
    assert(next =~= so_far.insert(chain_id, (counted(so_far, chain_id) + gas) as u64));
}

/// Adds the gas of `list` to the counters.
pub fn count_gas(counters: &mut HashMap<u64, u64>, list: &Vec<(u64, u64)>)
    requires
        has_room(old(counters)@, list@),
    ensures
        final(counters)@ == count(old(counters)@, list@),
{
    let ghost before = counters@;
    let mut i: usize = 0;
    assert(counters@ =~= count(before, list@.take(0)));
    while i < list.len()
        invariant
            i <= list@.len(),
            has_room(before, list@),
            counters@ == count(before, list@.take(i as int)),
        decreases list@.len() - i,
    {
        proof {
            lemma_count_next(before, list@, i as int);
        }
        let (chain_id, gas) = list[i];
        *counters.entry(chain_id).or_insert(0) += gas;
        i += 1;
    }
    assert(list@.take(i as int) =~= list@);
}

/// Whether the counters have room for the gas of `list`.
pub fn gas_fits(counters: &HashMap<u64, u64>, list: &Vec<(u64, u64)>) -> (fits: bool)
    ensures
        fits == has_room(counters@, list@),
{
    let mut i: usize = 0;
    while i < list.len()
        invariant
            i <= list@.len(),
            forall|k: int|
                0 <= k < i ==> counted(counters@, (#[trigger] list@[k]).0) + listed(
                    list@,
                    list@[k].0,
                ) <= u64::MAX,
        decreases list@.len() - i,
    {
        let chain_id: u64 = list[i].0;
        let mut total: u64 = match counters.get(&chain_id) {
            Some(gas) => *gas,
            None => 0,
        };
        let mut j: usize = 0;
        while j < list.len()
            invariant
                j <= list@.len(),
                total == counted(counters@, chain_id) + listed(list@.take(j as int), chain_id),
            decreases list@.len() - j,
        {
            proof {
                assert(list@.take(j + 1).drop_last() =~= list@.take(j as int));
                lemma_listed_in_prefix(list@, j + 1, chain_id);
            }
            if list[j].0 == chain_id {
                match total.checked_add(list[j].1) {
                    Some(next) => {
                        total = next;
                    },
                    None => {
                        assert(counted(counters@, chain_id) + listed(list@, chain_id) > u64::MAX);
                        return false;
                    },
                }
            }
            j += 1;
        }
        assert(list@.take(j as int) =~= list@);
        i += 1;
    }
    assert forall|chain_id: u64| counted(counters@, chain_id) + #[trigger] listed(list@, chain_id)
        <= u64::MAX by {
        if is_named(list@, chain_id) {
            let k = choose|k: int| 0 <= k < list@.len() && (#[trigger] list@[k]).0 == chain_id;
            assert(counted(counters@, list@[k].0) + listed(list@, list@[k].0) <= u64::MAX);
        } else {
            lemma_unnamed(list@, chain_id);
        }
    }
    true
}

/// The gas of two lists one after the other is the sum of their gas.
proof fn lemma_listed_in_both(first: Seq<(u64, u64)>, second: Seq<(u64, u64)>, chain_id: u64)
    ensures
        listed(first + second, chain_id) == listed(first, chain_id) + listed(second, chain_id),
    decreases second.len(),
{
    if second.len() == 0 {
        assert(first + second =~= first);
    } else {
        assert((first + second).drop_last() =~= first + second.drop_last());
        lemma_listed_in_both(first, second.drop_last(), chain_id);
    }
}

/// The counters depend only on the gas that was listed, not on how it was split between
/// transactions: to count two lists one after the other is to count their concatenation.
pub proof fn law_count_in_steps(
    counters: Map<u64, u64>,
    first: Seq<(u64, u64)>,
    second: Seq<(u64, u64)>,
)
    requires
        has_room(counters, first + second),
    ensures
        has_room(counters, first),
        has_room(count(counters, first), second),
        count(count(counters, first), second) == count(counters, first + second),
{
    assert forall|id: u64| true implies #[trigger] listed(first + second, id) == listed(first, id)
        + listed(second, id) && 0 <= listed(first, id) && 0 <= listed(second, id) by {
        lemma_listed_in_both(first, second, id);
        lemma_listed_in_prefix(first, 0, id);
        lemma_listed_in_prefix(second, 0, id);
    }
    assert forall|id: u64| counted(counters, id) + #[trigger] listed(first, id) <= u64::MAX by {
        assert(listed(first + second, id) == listed(first, id) + listed(second, id));
    }
    assert forall|id: u64| true implies #[trigger] counted(count(counters, first), id) == counted(
        counters,
        id,
    ) + listed(first, id) by {
        assert(listed(first + second, id) == listed(first, id) + listed(second, id));
        if !is_named(first, id) {
            lemma_unnamed(first, id);
        }
    }
    assert forall|id: u64| counted(count(counters, first), id) + #[trigger] listed(second, id)
        <= u64::MAX by {
        assert(listed(first + second, id) == listed(first, id) + listed(second, id));
    }
    assert forall|id: u64| #[trigger]
        is_named(first + second, id) == (is_named(first, id) || is_named(second, id)) by {
        if is_named(first, id) {
            let i = choose|i: int| 0 <= i < first.len() && (#[trigger] first[i]).0 == id;
            assert((first + second)[i].0 == id);
        }
        if is_named(second, id) {
            let i = choose|i: int| 0 <= i < second.len() && (#[trigger] second[i]).0 == id;
            assert((first + second)[first.len() + i].0 == id);
        }
        if is_named(first + second, id) {
            let i = choose|i: int|
                0 <= i < (first + second).len() && (#[trigger] (first + second)[i]).0 == id;
            if i < first.len() {
                assert(first[i].0 == id);
            } else {
                assert(second[i - first.len()].0 == id);
            }
        }
    }
    assert(count(count(counters, first), second) =~= count(counters, first + second));
}

/// The counter of a chain that a list does not name stays as it is.
pub proof fn law_other_chains_keep_their_count(
    counters: Map<u64, u64>,
    list: Seq<(u64, u64)>,
    chain_id: u64,
)
    requires
        !is_named(list, chain_id),
    ensures
        count(counters, list).contains_key(chain_id) == counters.contains_key(chain_id),
        counted(count(counters, list), chain_id) == counted(counters, chain_id),
{
    lemma_unnamed(list, chain_id);
}

} // verus!
