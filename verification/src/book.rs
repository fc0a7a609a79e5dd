//! Sums over the contributions of the investors.
use crate::env::lookup;
use crate::values::Address;
use vstd::prelude::*;

verus! {

/// What the investors of `index` have contributed together.
pub open spec fn total(contributions: Map<Address, i128>, index: Seq<Address>) -> int
    decreases index.len(),
{
    if index.len() == 0 {
        0
    } else {
        total(contributions, index.drop_last()) + lookup(contributions, index.last(), 0)
    }
}

/// A contribution of somebody who is not in the index does not count.
pub proof fn lemma_total_ignores_others(
    contributions: Map<Address, i128>,
    index: Seq<Address>,
    investor: Address,
    amount: i128,
)
    requires
        !index.contains(investor),
    ensures
        total(contributions.insert(investor, amount), index) == total(contributions, index),
    decreases index.len(),
{
    if index.len() > 0 {
        let rest = index.drop_last();
        assert(index[index.len() - 1] == index.last());
        assert forall|i: int| 0 <= i < rest.len() implies rest[i] != investor by {
            assert(rest[i] == index[i]);
        }
        lemma_total_ignores_others(contributions, rest, investor, amount);
    }
}

/// Changing one investor's contribution changes the total by as much.
pub proof fn lemma_total_of_changed(
    contributions: Map<Address, i128>,
    index: Seq<Address>,
    investor: Address,
    amount: i128,
)
    requires
        index.contains(investor),
        index.no_duplicates(),
    ensures
        total(contributions.insert(investor, amount), index) == total(contributions, index)
            - lookup(contributions, investor, 0) + amount,
    decreases index.len(),
{
    let rest = index.drop_last();
    let at = choose|i: int| 0 <= i < index.len() && index[i] == investor;
    if index.last() == investor {
        assert forall|i: int| 0 <= i < rest.len() implies rest[i] != investor by {
            assert(rest[i] == index[i]);
            assert(index[index.len() - 1] == investor);
        }
        lemma_total_ignores_others(contributions, rest, investor, amount);
    } else {
        assert(rest[at] == investor);
        lemma_total_of_changed(contributions, rest, investor, amount);
    }
}

/// A new investor's contribution is added to the total.
pub proof fn lemma_total_with_new(
    contributions: Map<Address, i128>,
    index: Seq<Address>,
    investor: Address,
    amount: i128,
)
    requires
        !index.contains(investor),
    ensures
        total(contributions.insert(investor, amount), index.push(investor)) == total(
            contributions,
            index,
        ) + amount,
{
    let pushed = index.push(investor);
    assert(pushed.drop_last() =~= index);
    lemma_total_ignores_others(contributions, index, investor, amount);
}

/// Where nobody's contribution is negative, no part of the index contributes more than all of it.
pub proof fn lemma_part_of_total(
    contributions: Map<Address, i128>,
    index: Seq<Address>,
    investor: Address,
)
    requires
        index.contains(investor),
        forall|i: int|
            0 <= i < index.len() ==> lookup(contributions, #[trigger] index[i], 0) >= 0,
    ensures
        0 <= lookup(contributions, investor, 0) <= total(contributions, index),
    decreases index.len(),
{
    let rest = index.drop_last();
    assert forall|i: int| 0 <= i < rest.len() implies lookup(contributions, #[trigger] rest[i], 0)
        >= 0 by {
        assert(rest[i] == index[i]);
    }
    lemma_total_not_negative(contributions, rest);
    let at = choose|i: int| 0 <= i < index.len() && index[i] == investor;
    assert(lookup(contributions, index[index.len() - 1], 0) >= 0);
    if at < rest.len() {
        assert(rest[at] == investor);
        lemma_part_of_total(contributions, rest, investor);
    }
}

/// Where nobody's contribution is negative, the total is not.
pub proof fn lemma_total_not_negative(contributions: Map<Address, i128>, index: Seq<Address>)
    requires
        forall|i: int|
            0 <= i < index.len() ==> lookup(contributions, #[trigger] index[i], 0) >= 0,
    ensures
        total(contributions, index) >= 0,
    decreases index.len(),
{
    if index.len() > 0 {
        let rest = index.drop_last();
        assert forall|i: int| 0 <= i < rest.len() implies lookup(
            contributions,
            #[trigger] rest[i],
            0,
        ) >= 0 by {
            assert(rest[i] == index[i]);
        }
        assert(lookup(contributions, index[index.len() - 1], 0) >= 0);
        lemma_total_not_negative(contributions, rest);
    }
}

} // verus!
