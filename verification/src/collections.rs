//! Small keyed collections with exact map views.
//!
//! Alarm keys hold strings, so the maps here are association lists searched by key identity;
//! each key occurs at most once, which the type invariant records.

use vstd::prelude::*;

use crate::model::key::{Key, KeyView};

verus! {

/// No two entries share a key.
pub open spec fn keys_unique<V>(s: Seq<(Key, V)>) -> bool {
    forall|i: int, j: int| 0 <= i < s.len() && 0 <= j < s.len() && i != j ==> s[i].0@ != s[j].0@
}

/// The map from key identity to value that an association list describes.
pub open spec fn entries_map<V>(s: Seq<(Key, V)>) -> Map<KeyView, V> {
    Map::new(
        |k: KeyView| exists|i: int| 0 <= i < s.len() && s[i].0@ == k,
        |k: KeyView| s[choose|i: int| 0 <= i < s.len() && s[i].0@ == k].1,
    )
}

/// With unique keys, the entry at position `i` is exactly what the map holds for its key.
pub proof fn lemma_entries_map_at<V>(s: Seq<(Key, V)>, i: int)
    requires
        keys_unique(s),
        0 <= i < s.len(),
    ensures
        entries_map(s).dom().contains(s[i].0@),
        entries_map(s)[s[i].0@] == s[i].1,
{
    let k = s[i].0@;
    assert(exists|j: int| 0 <= j < s.len() && s[j].0@ == k);
    let c = choose|j: int| 0 <= j < s.len() && s[j].0@ == k;
    assert(c == i);
}

/// An association list from alarm keys to values, with at most one entry per key.
pub struct KeyMap<V> {
    entries: Vec<(Key, V)>,
}

impl<V> KeyMap<V> {
    #[verifier::type_invariant]
    spec fn inv(self) -> bool {
        keys_unique(self.entries@)
    }

    /// The entries, in storage order.
    pub closed spec fn entries(self) -> Seq<(Key, V)> {
        self.entries@
    }

    /// The map view: each key identity to its value.
    pub open spec fn view(self) -> Map<KeyView, V> {
        entries_map(self.entries())
    }

    /// Creates an empty map.
    pub fn new() -> (m: Self)
        ensures
            m@ == Map::<KeyView, V>::empty(),
            m.entries().len() == 0,
    {
        let m = KeyMap { entries: Vec::new() };
        assert(m@ =~= Map::<KeyView, V>::empty());
        m
    }

    /// Gives up the entries, in storage order.
    pub fn into_entries(self) -> (v: Vec<(Key, V)>)
        ensures
            v@ == self.entries(),
            keys_unique(v@),
    {
        proof {
            use_type_invariant(&self);
        }
        self.entries
    }

    /// The number of entries.
    pub fn num_entries(&self) -> (n: usize)
        ensures
            n == self.entries().len(),
            keys_unique(self.entries()),
    {
        proof {
            use_type_invariant(self);
        }
        self.entries.len()
    }

    /// The entry stored at position `i`.
    pub fn entry_at(&self, i: usize) -> (e: &(Key, V))
        requires
            i < self.entries().len(),
        ensures
            *e == self.entries()[i as int],
    {
        &self.entries[i]
    }

    /// The position of the entry for `key`, if there is one.
    pub fn index_of(&self, key: &Key) -> (r: Option<usize>)
        ensures
            r matches Some(i) ==> i < self.entries().len() && self.entries()[i as int].0@ == key@,
            r is None ==> forall|i: int| 0 <= i < self.entries().len() ==> self.entries()[i].0@ != key@,
            r is Some <==> self@.dom().contains(key@),
    {
        let mut i: usize = 0;
        while i < self.entries.len()
            invariant
                i <= self.entries@.len(),
                forall|j: int| 0 <= j < i ==> self.entries@[j].0@ != key@,
            decreases self.entries@.len() - i,
        {
            if self.entries[i].0.same_as(key) {
                return Some(i);
            }
            i = i + 1;
        }
        None
    }

    /// The value stored for `key`, if any.
    pub fn get(&self, key: &Key) -> (r: Option<&V>)
        ensures
            r is Some <==> self@.dom().contains(key@),
            r matches Some(v) ==> *v == self@[key@],
    {
        proof {
            use_type_invariant(self);
        }
        match self.index_of(key) {
            Some(i) => {
                proof {
                    lemma_entries_map_at(self.entries@, i as int);
                }
                Some(&self.entries[i].1)
            },
            None => None,
        }
    }

    /// Whether an entry exists for `key`.
    pub fn contains_key(&self, key: &Key) -> (r: bool)
        ensures
            r == self@.dom().contains(key@),
    {
        self.index_of(key).is_some()
    }

    /// Stores `value` for `key`, returning the value it replaces.
    pub fn insert(&mut self, key: Key, value: V) -> (old_value: Option<V>)
        ensures
            final(self)@ == old(self)@.insert(key@, value),
            old(self)@.dom().contains(key@) ==> old_value == Some(old(self)@[key@]),
            !old(self)@.dom().contains(key@) ==> old_value is None,
    {
        let old_value = self.remove(&key);
        proof {
            use_type_invariant(&*self);
        }
        let ghost before = self.entries@;
        let mut entries: Vec<(Key, V)> = Vec::new();
        std::mem::swap(&mut entries, &mut self.entries);
        entries.push((key, value));
        proof {
            let after = entries@;
            assert(!entries_map(before).dom().contains(key@));
            assert forall|i: int| 0 <= i < before.len() implies before[i].0@ != key@ by {
                if before[i].0@ == key@ {
                    assert(entries_map(before).dom().contains(key@));
                }
            }
            assert(after.len() == before.len() + 1);
            assert forall|i: int| 0 <= i < before.len() implies after[i] == before[i] by {}
            assert forall|i: int, j: int|
                0 <= i < after.len() && 0 <= j < after.len() && i != j implies after[i].0@
                != after[j].0@ by {
                if i < before.len() && j < before.len() {
                } else if i == before.len() {
                    assert(after[i].0@ == key@);
                } else {
                    assert(after[j].0@ == key@);
                }
            }
            assert(keys_unique(after));
            assert forall|k: KeyView| entries_map(after).dom().contains(k) <==> old(self)@.insert(
                key@,
                value,
            ).dom().contains(k) by {
                if entries_map(after).dom().contains(k) {
                    let i = choose|i: int| 0 <= i < after.len() && after[i].0@ == k;
                    if i < before.len() {
                        assert(entries_map(before).dom().contains(k));
                    }
                }
                if k != key@ && old(self)@.dom().contains(k) {
                    assert(entries_map(before).dom().contains(k));
                    let i = choose|i: int| 0 <= i < before.len() && before[i].0@ == k;
                    assert(after[i].0@ == k);
                }
                if k == key@ {
                    assert(after[before.len() as int].0@ == k);
                }
            }
            assert forall|k: KeyView| entries_map(after).dom().contains(k) implies entries_map(
                after,
            )[k] == old(self)@.insert(key@, value)[k] by {
                let i = choose|i: int| 0 <= i < after.len() && after[i].0@ == k;
                lemma_entries_map_at(after, i);
                if i < before.len() {
                    lemma_entries_map_at(before, i);
                }
            }
            assert(entries_map(after) =~= old(self)@.insert(key@, value));
        }
        self.entries = entries;
        old_value
    }

    /// Removes the entry for `key`, returning its value.
    pub fn remove(&mut self, key: &Key) -> (old_value: Option<V>)
        ensures
            final(self)@ == old(self)@.remove(key@),
            old(self)@.dom().contains(key@) ==> old_value == Some(old(self)@[key@]),
            !old(self)@.dom().contains(key@) ==> old_value is None,
    {
        proof {
            use_type_invariant(&*self);
        }
        match self.index_of(key) {
            None => {
                assert(self@ =~= old(self)@.remove(key@));
                None
            },
            Some(i) => {
                let ghost before = self.entries@;
                proof {
                    lemma_entries_map_at(before, i as int);
                }
                let mut entries: Vec<(Key, V)> = Vec::new();
                std::mem::swap(&mut entries, &mut self.entries);
                let removed = entries.swap_remove(i);
                proof {
                    let after = entries@;
                    let last = before.len() - 1;
                    assert(after.len() == last);
                    assert forall|j: int| 0 <= j < after.len() implies after[j] == (if j == i {
                        before[last]
                    } else {
                        before[j]
                    }) by {}
                    assert forall|a: int, b: int|
                        0 <= a < after.len() && 0 <= b < after.len() && a != b implies after[a].0@
                        != after[b].0@ by {
                        let oa = if a == i { last } else { a };
                        let ob = if b == i { last } else { b };
                        assert(after[a] == before[oa]);
                        assert(after[b] == before[ob]);
                    }
                    assert(keys_unique(after));
                    assert forall|k: KeyView| entries_map(after).dom().contains(k)
                        <==> old(self)@.remove(key@).dom().contains(k) by {
                        if entries_map(after).dom().contains(k) {
                            let j = choose|j: int| 0 <= j < after.len() && after[j].0@ == k;
                            let oj = if j == i { last } else { j };
                            assert(after[j] == before[oj]);
                            assert(entries_map(before).dom().contains(k));
                            assert(oj != i);
                        }
                        if k != key@ && old(self)@.dom().contains(k) {
                            let j = choose|j: int| 0 <= j < before.len() && before[j].0@ == k;
                            assert(j != i);
                            if j == last {
                                assert(after[i as int] == before[j]);
                            } else {
                                assert(after[j] == before[j]);
                            }
                        }
                    }
                    assert forall|k: KeyView| entries_map(after).dom().contains(k) implies entries_map(
                        after,
                    )[k] == old(self)@.remove(key@)[k] by {
                        let j = choose|j: int| 0 <= j < after.len() && after[j].0@ == k;
                        lemma_entries_map_at(after, j);
                        let oj = if j == i { last } else { j };
                        assert(after[j] == before[oj]);
                        lemma_entries_map_at(before, oj);
                    }
                    assert(entries_map(after) =~= old(self)@.remove(key@));
                }
                self.entries = entries;
                Some(removed.1)
            },
        }
    }
}

} // verus!
