use vstd::prelude::*;
use crate::address::Address;

verus! {

/// Keys of a [`Table`]: values compared by identity.
pub trait TableKey: Sized {
    /// Whether two keys are the same key.
    fn same_key(&self, other: &Self) -> (b: bool)
        ensures
            b == (*self == *other),
    ;
}

impl TableKey for u32 {
    fn same_key(&self, other: &Self) -> (b: bool) {
        *self == *other
    }
}

impl TableKey for Address {
    fn same_key(&self, other: &Self) -> (b: bool) {
        *self == *other
    }
}

impl TableKey for (Address, Address) {
    fn same_key(&self, other: &Self) -> (b: bool) {
        self.0 == other.0 && self.1 == other.1
    }
}

/// A finite map held as a list of entries, each key at most once.
///
/// This is the keyed storage of the contracts: its view is the map from each
/// stored key to its value.
#[verifier::reject_recursive_types(K)]
pub struct Table<K: TableKey, V> {
    entries: Vec<(K, V)>,
    contents: Ghost<Map<K, V>>,
}

impl<K: TableKey, V> Table<K, V> {
    #[verifier::type_invariant]
    spec fn entries_match(self) -> bool {
        &&& forall|i: int, j: int|
            0 <= i < j < self.entries@.len() ==> #[trigger] self.entries@[i].0
                != #[trigger] self.entries@[j].0
        &&& forall|i: int|
            0 <= i < self.entries@.len() ==> #[trigger] self.contents@.contains_key(
                self.entries@[i].0,
            ) && self.contents@[self.entries@[i].0] == self.entries@[i].1
        &&& forall|k: K| #[trigger] self.contents@.contains_key(k) ==> Self::key_at(self.entries@, k)
    }

    spec fn key_at(entries: Seq<(K, V)>, k: K) -> bool {
        exists|i: int| 0 <= i < entries.len() && #[trigger] entries[i].0 == k
    }

    /// The map from each stored key to its value.
    pub closed spec fn view(&self) -> Map<K, V> {
        self.contents@
    }

    /// Whether `k` is stored.
    pub open spec fn has(&self, k: K) -> bool {
        self.view().contains_key(k)
    }

    /// An empty table.
    pub fn new() -> (t: Self)
        ensures
            t.view() == Map::<K, V>::empty(),
    {
        Table { entries: Vec::new(), contents: Ghost(Map::empty()) }
    }

    /// Position of `k` among the entries, if stored.
    fn find(&self, k: &K) -> (r: Option<usize>)
        ensures
            match r {
                Some(i) => i < self.entries@.len() && self.entries@[i as int].0 == *k,
                None => !self.view().contains_key(*k),
            },
    {
        proof {
            use_type_invariant(self);
        }
        let mut i: usize = 0;
        while i < self.entries.len()
            invariant
                i <= self.entries@.len(),
                forall|j: int| 0 <= j < i ==> self.entries@[j].0 != *k,
            decreases self.entries@.len() - i,
        {
            if self.entries[i].0.same_key(k) {
                return Some(i);
            }
            i = i + 1;
        }
        proof {
            if self.contents@.contains_key(*k) {
                let j = choose|j: int| 0 <= j < self.entries@.len() && #[trigger] self.entries@[j].0 == *k;
                assert(self.entries@[j].0 == *k);
            }
        }
        None
    }

    /// Whether `k` is stored.
    pub fn contains(&self, k: &K) -> (b: bool)
        ensures
            b == self.view().contains_key(*k),
    {
        proof {
            use_type_invariant(self);
        }
        match self.find(k) {
            Some(i) => {
                assert(self.contents@.contains_key(self.entries@[i as int].0));
                true
            },
            None => false,
        }
    }

    /// The value stored under `k`, if any.
    pub fn get(&self, k: &K) -> (r: Option<&V>)
        ensures
            match r {
                Some(v) => self.view().contains_key(*k) && *v == self.view()[*k],
                None => !self.view().contains_key(*k),
            },
    {
        proof {
            use_type_invariant(self);
        }
        match self.find(k) {
            Some(i) => {
                assert(self.contents@.contains_key(self.entries@[i as int].0));
                Some(&self.entries[i].1)
            },
            None => None,
        }
    }

    /// Stores `v` under `k`, replacing any earlier value.
    pub fn insert(&mut self, k: K, v: V)
        ensures
            final(self).view() == old(self).view().insert(k, v),
    {
        proof {
            use_type_invariant(&*self);
        }
        let found = self.find(&k);
        let ghost old_entries = self.entries@;
        let ghost old_map = self.contents@;
        let ghost new_map = self.contents@.insert(k, v);
        match found {
            Some(i) => {
                let mut tmp = Table::new();
                std::mem::swap(&mut tmp, self);
                proof {
                    use_type_invariant(&tmp);
                }
                let Table { entries: mut entries, contents: _ } = tmp;
                entries.set(i, (k, v));
                let ghost e = entries@;
                assert forall|a: int, b: int|
                    0 <= a < b < e.len() implies #[trigger] e[a].0 != #[trigger] e[b].0 by {
                    assert(e[a].0 == old_entries[a].0);
                    assert(e[b].0 == old_entries[b].0);
                }
                assert forall|a: int| 0 <= a < e.len() implies #[trigger] new_map.contains_key(
                    e[a].0,
                ) && new_map[e[a].0] == e[a].1 by {
                    if a != i {
                        assert(old_entries[a].0 != old_entries[i as int].0);
                        assert(old_map.contains_key(old_entries[a].0));
                    }
                }
                assert forall|kk: K| #[trigger] new_map.contains_key(kk) implies exists|a: int|
                    0 <= a < e.len() && #[trigger] e[a].0 == kk by {
                    if kk == k {
                        assert(e[i as int].0 == kk);
                    } else {
                        let a = choose|a: int| 0 <= a < old_entries.len() && #[trigger] old_entries[a].0 == kk;
                        assert(e[a].0 == kk);
                    }
                }
                *self = Table { entries, contents: Ghost(new_map) };
            },
            None => {
                let mut tmp = Table::new();
                std::mem::swap(&mut tmp, self);
                proof {
                    use_type_invariant(&tmp);
                }
                let Table { entries: mut entries, contents: _ } = tmp;
                entries.push((k, v));
                let ghost e = entries@;
                assert forall|a: int, b: int|
                    0 <= a < b < e.len() implies #[trigger] e[a].0 != #[trigger] e[b].0 by {
                    if b == e.len() - 1 {
                        assert(old_map.contains_key(old_entries[a].0));
                    } else {
                        assert(e[a].0 == old_entries[a].0);
                        assert(e[b].0 == old_entries[b].0);
                    }
                }
                assert forall|a: int| 0 <= a < e.len() implies #[trigger] new_map.contains_key(
                    e[a].0,
                ) && new_map[e[a].0] == e[a].1 by {
                    if a < e.len() - 1 {
                        assert(old_map.contains_key(old_entries[a].0));
                    }
                }
                assert forall|kk: K| #[trigger] new_map.contains_key(kk) implies exists|a: int|
                    0 <= a < e.len() && #[trigger] e[a].0 == kk by {
                    if kk == k {
                        assert(e[e.len() - 1].0 == kk);
                    } else {
                        let a = choose|a: int| 0 <= a < old_entries.len() && #[trigger] old_entries[a].0 == kk;
                        assert(e[a].0 == kk);
                    }
                }
                *self = Table { entries, contents: Ghost(new_map) };
            },
        }
    }

    /// Removes the entry for `k`, if any, and hands its value back.
    pub fn remove(&mut self, k: &K) -> (r: Option<V>)
        ensures
            final(self).view() == old(self).view().remove(*k),
            r == (if old(self).view().contains_key(*k) {
                Some(old(self).view()[*k])
            } else {
                None::<V>
            }),
    {
        proof {
            use_type_invariant(&*self);
        }
        let found = self.find(k);
        match found {
            Some(i) => {
                let ghost old_entries = self.entries@;
                let ghost old_map = self.contents@;
                let ghost new_map = self.contents@.remove(*k);
                let mut tmp = Table::new();
                std::mem::swap(&mut tmp, self);
                proof {
                    use_type_invariant(&tmp);
                }
                let Table { entries: mut entries, contents: _ } = tmp;
                let removed = entries.swap_remove(i);
                let ghost e = entries@;
                let ghost last = old_entries.len() - 1;
                assert forall|a: int| 0 <= a < e.len() implies #[trigger] e[a].0 != *k
                    && (e[a] == old_entries[a] || (a == i && e[a] == old_entries[last])) by {
                    if a == i {
                        assert(old_entries[last].0 != old_entries[i as int].0);
                    } else {
                        assert(old_entries[a].0 != old_entries[i as int].0);
                    }
                }
                assert forall|a: int, b: int|
                    0 <= a < b < e.len() implies #[trigger] e[a].0 != #[trigger] e[b].0 by {
                    assert(e[a].0 != *k);
                }
                assert forall|a: int| 0 <= a < e.len() implies #[trigger] new_map.contains_key(
                    e[a].0,
                ) && new_map[e[a].0] == e[a].1 by {
                    assert(e[a].0 != *k);
                    if a == i {
                        assert(old_map.contains_key(old_entries[last].0));
                    } else {
                        assert(old_map.contains_key(old_entries[a].0));
                    }
                }
                assert forall|kk: K| #[trigger] new_map.contains_key(kk) implies exists|a: int|
                    0 <= a < e.len() && #[trigger] e[a].0 == kk by {
                    let a = choose|a: int| 0 <= a < old_entries.len() && #[trigger] old_entries[a].0 == kk;
                    if a == last {
                        assert(e[i as int].0 == kk);
                    } else {
                        assert(e[a].0 == kk);
                    }
                }
                assert(old_map.contains_key(old_entries[i as int].0));
                *self = Table { entries, contents: Ghost(new_map) };
                Some(removed.1)
            },
            None => {
                assert(self.contents@.remove(*k) =~= self.contents@);
                None
            },
        }
    }

    /// Number of stored entries.
    pub fn len(&self) -> (n: usize)
        ensures
            n == self.view().dom().len(),
    {
        proof {
            use_type_invariant(self);
            self.lemma_len();
        }
        self.entries.len()
    }

    proof fn lemma_len(&self)
        requires
            self.entries_match(),
        ensures
            self.contents@.dom().len() == self.entries@.len(),
            self.contents@.dom().finite(),
    {
        let keys = self.entries@.map_values(|e: (K, V)| e.0);
        assert(keys.no_duplicates()) by {
            assert forall|a: int, b: int| 0 <= a < keys.len() && 0 <= b < keys.len() && a != b implies keys[a] != keys[b] by {
                if a < b {
                    assert(self.entries@[a].0 != self.entries@[b].0);
                } else {
                    assert(self.entries@[b].0 != self.entries@[a].0);
                }
            }
        }
        assert(keys.to_set() =~= self.contents@.dom()) by {
            assert forall|kk: K| keys.to_set().contains(kk) implies self.contents@.dom().contains(kk) by {
                let a = choose|a: int| 0 <= a < keys.len() && keys[a] == kk;
                assert(self.contents@.contains_key(self.entries@[a].0));
            }
            assert forall|kk: K| self.contents@.dom().contains(kk) implies keys.to_set().contains(kk) by {
                let a = choose|a: int| 0 <= a < self.entries@.len() && #[trigger] self.entries@[a].0 == kk;
                assert(keys[a] == kk);
            }
        }
        keys.unique_seq_to_set();
    }
}

} // verus!
