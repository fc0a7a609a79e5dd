//! A map from addresses to plain values: one ledger entry per address.
use crate::values::Address;
use vstd::prelude::*;

verus! {

/// What a list of entries says, an earlier entry standing before a later one for the same address.
pub open spec fn entries_map<V>(entries: Seq<(Address, V)>) -> Map<Address, V>
    decreases entries.len(),
{
    if entries.len() == 0 {
        Map::empty()
    } else {
        entries_map(entries.drop_first()).insert(entries[0].0, entries[0].1)
    }
}

/// A map keyed by [`Address`], kept as a list of entries.
#[derive(Debug)]
pub struct AddressMap<V> {
    entries: Vec<(Address, V)>,
}

impl<V> View for AddressMap<V> {
    type V = Map<Address, V>;

    closed spec fn view(&self) -> Map<Address, V> {
        entries_map(self.entries@)
    }
}

proof fn lemma_entries_map<V>(entries: Seq<(Address, V)>, key: Address)
    ensures
        entries_map(entries).contains_key(key) <==> exists|i: int|
            0 <= i < entries.len() && #[trigger] entries[i].0 == key,
    decreases entries.len(),
{
    if entries.len() > 0 {
        let rest = entries.drop_first();
        lemma_entries_map(rest, key);
        if entries_map(entries).contains_key(key) && entries[0].0 != key {
            let i = choose|i: int| 0 <= i < rest.len() && #[trigger] rest[i].0 == key;
            assert(entries[i + 1].0 == key);
        }
        if exists|i: int| 0 <= i < entries.len() && #[trigger] entries[i].0 == key {
            let i = choose|i: int| 0 <= i < entries.len() && #[trigger] entries[i].0 == key;
            if i > 0 {
                assert(rest[i - 1].0 == key);
            }
        }
    }
}

/// The first entry for an address is the one that counts.
proof fn lemma_first_entry<V>(entries: Seq<(Address, V)>, at: int)
    requires
        0 <= at < entries.len(),
        forall|j: int| 0 <= j < at ==> (#[trigger] entries[j]).0 != entries[at].0,
    ensures
        entries_map(entries).contains_key(entries[at].0),
        entries_map(entries)[entries[at].0] == entries[at].1,
    decreases entries.len(),
{
    if at > 0 {
        let rest = entries.drop_first();
        assert(rest[at - 1] == entries[at]);
        assert forall|j: int| 0 <= j < at - 1 implies (#[trigger] rest[j]).0 != rest[at - 1].0 by {
            assert(rest[j] == entries[j + 1]);
        }
        lemma_first_entry(rest, at - 1);
        assert(entries[0].0 != entries[at].0);
    }
}

/// Replacing the value of the first entry for an address sets that address and no other.
proof fn lemma_update_entry<V>(entries: Seq<(Address, V)>, at: int, value: V)
    requires
        0 <= at < entries.len(),
        forall|j: int| 0 <= j < at ==> (#[trigger] entries[j]).0 != entries[at].0,
    ensures
        entries_map(entries.update(at, (entries[at].0, value))) == entries_map(entries).insert(
            entries[at].0,
            value,
        ),
    decreases entries.len(),
{
    let updated = entries.update(at, (entries[at].0, value));
    let rest = entries.drop_first();
    if at == 0 {
        assert(updated.drop_first() =~= rest);
        assert(entries_map(updated) =~= entries_map(entries).insert(entries[at].0, value));
    } else {
        assert(rest[at - 1] == entries[at]);
        assert forall|j: int| 0 <= j < at - 1 implies (#[trigger] rest[j]).0 != rest[at - 1].0 by {
            assert(rest[j] == entries[j + 1]);
        }
        lemma_update_entry(rest, at - 1, value);
        assert(updated.drop_first() =~= rest.update(at - 1, (entries[at].0, value)));
        assert(updated[0] == entries[0]);
        assert(entries[0].0 != entries[at].0);
        assert(entries_map(updated) =~= entries_map(entries).insert(entries[at].0, value));
    }
}

/// An entry for a new address, put last, adds that address.
proof fn lemma_push_entry<V>(entries: Seq<(Address, V)>, key: Address, value: V)
    requires
        forall|j: int| 0 <= j < entries.len() ==> (#[trigger] entries[j]).0 != key,
    ensures
        entries_map(entries.push((key, value))) == entries_map(entries).insert(key, value),
    decreases entries.len(),
{
    let pushed = entries.push((key, value));
    if entries.len() == 0 {
        assert(pushed.drop_first() =~= entries);
        assert(entries_map(pushed) =~= entries_map(entries).insert(key, value));
    } else {
        let rest = entries.drop_first();
        assert forall|j: int| 0 <= j < rest.len() implies (#[trigger] rest[j]).0 != key by {
            assert(rest[j] == entries[j + 1]);
        }
        lemma_push_entry(rest, key, value);
        assert(pushed.drop_first() =~= rest.push((key, value)));
        assert(pushed[0] == entries[0]);
        assert(entries_map(pushed) =~= entries_map(entries).insert(key, value));
    }
}

/// A second list with the same items.
pub fn copy_items<T: Copy>(items: &Vec<T>) -> (r: Vec<T>)
    ensures
        r@ == items@,
{
    let mut r: Vec<T> = Vec::new();
    let mut i: usize = 0;
    while i < items.len()
        invariant
            i <= items.len(),
            r@ == items@.take(i as int),
        decreases items.len() - i,
    {
        r.push(items[i]);
        assert(items@.take(i as int).push(items@[i as int]) =~= items@.take(i + 1));
        i += 1;
    }
    assert(items@.take(items@.len() as int) =~= items@);
    r
}

impl<V: Copy> AddressMap<V> {
    /// The map without entries.
    pub fn new() -> (r: Self)
        ensures
            r@ == Map::<Address, V>::empty(),
    {
        AddressMap { entries: Vec::new() }
    }

    /// The value for `key`, or `None` when there is none.
    pub fn get(&self, key: Address) -> (r: Option<V>)
        ensures
            r == (if self@.contains_key(key) {
                Some(self@[key])
            } else {
                None
            }),
    {
        let mut i: usize = 0;
        while i < self.entries.len()
            invariant
                i <= self.entries.len(),
                forall|j: int| 0 <= j < i ==> (#[trigger] self.entries@[j]).0 != key,
            decreases self.entries.len() - i,
        {
            if self.entries[i].0 == key {
                proof {
                    lemma_first_entry(self.entries@, i as int);
                }
                return Some(self.entries[i].1);
            }
            i += 1;
        }
        proof {
            lemma_entries_map(self.entries@, key);
        }
        None
    }

    /// A second map with the same entries.
    pub fn copy(&self) -> (r: Self)
        ensures
            r@ == self@,
    {
        AddressMap { entries: copy_items(&self.entries) }
    }

    /// Sets the value for `key`.
    pub fn insert(&mut self, key: Address, value: V)
        ensures
            final(self)@ == old(self)@.insert(key, value),
    {
        let mut i: usize = 0;
        while i < self.entries.len()
            invariant
                i <= self.entries.len(),
                self.entries@ == old(self).entries@,
                forall|j: int| 0 <= j < i ==> (#[trigger] self.entries@[j]).0 != key,
            decreases self.entries.len() - i,
        {
            if self.entries[i].0 == key {
                proof {
                    lemma_update_entry(self.entries@, i as int, value);
                }
                self.entries.set(i, (key, value));
                return ;
            }
            i += 1;
        }
        proof {
            lemma_push_entry(self.entries@, key, value);
        }
        self.entries.push((key, value));
    }
}

} // verus!
