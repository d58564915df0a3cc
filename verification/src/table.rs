use crate::crypto::H256;
use vstd::prelude::*;

verus! {

/// What can be the key of a [`Table`]: a value that can be told from every other.
pub trait Key: Sized {
    /// Whether the two are the same value.
    fn same(&self, other: &Self) -> (same: bool)
        ensures
            same == (*self == *other),
    ;
}

impl Key for H256 {
    fn same(&self, other: &Self) -> (same: bool) {
        *self == *other
    }
}

/// One key of a [`Table`] with what is stored under it.
pub struct Entry<K, V> {
    key: K,
    value: V,
}

/// A finite map, for keys that are no primitive integers: of the hash maps of std, only
/// those with such keys have a specification that a proof can use.
///
/// No key occurs twice among the entries: that is the type's invariant, and what makes the
/// entries a map.
pub struct Table<K, V> {
    entries: Vec<Entry<K, V>>,
}

impl<K, V: View> View for Table<K, V> {
    type V = Map<K, V::V>;

    closed spec fn view(&self) -> Map<K, V::V> {
        Map::new(|k: K| self.holds(k), |k: K| self.entries[self.index_of(k)].value@)
    }
}

impl<K, V> Table<K, V> {
    #[verifier::type_invariant]
    spec fn distinct_keys(&self) -> bool {
        forall|i: int, j: int|
            0 <= i < j < self.entries.len() ==> self.entries[i].key != self.entries[j].key
    }
}

impl<K, V: View> Table<K, V> {
    spec fn holds(&self, key: K) -> bool {
        exists|i: int| 0 <= i < self.entries.len() && #[trigger] self.entries[i].key == key
    }

    spec fn index_of(&self, key: K) -> int {
        choose|i: int| 0 <= i < self.entries.len() && #[trigger] self.entries[i].key == key
    }

    spec fn key_seq(&self) -> Seq<K> {
        self.entries@.map_values(|e: Entry<K, V>| e.key)
    }

    proof fn lemma_entry(&self, i: int)
        requires
            self.distinct_keys(),
            0 <= i < self.entries.len(),
        ensures
            self@.contains_key(self.entries[i].key),
            self@[self.entries[i].key] == self.entries[i].value@,
            self.index_of(self.entries[i].key) == i,
    {
        let k = self.entries[i].key;
        assert(self.holds(k));
        let j = self.index_of(k);
        assert(0 <= j < self.entries.len() && self.entries[j].key == k);
        if j != i {
            if j < i {
                assert(self.entries[j].key != self.entries[i].key);
            } else {
                assert(self.entries[i].key != self.entries[j].key);
            }
        }
    }

    proof fn lemma_domain(&self)
        requires
            self.distinct_keys(),
        ensures
            self@.dom().finite(),
            self@.dom().len() == self.entries.len(),
    {
        let keys = self.key_seq();
        assert(keys.no_duplicates());
        assert(self@.dom() =~= keys.to_set()) by {
            assert forall|k: K| self@.dom().contains(k) implies keys.to_set().contains(k) by {
                let i = self.index_of(k);
                assert(keys[i] == k);
            }
            assert forall|k: K| keys.to_set().contains(k) implies self@.dom().contains(k) by {
                let i = choose|i: int| 0 <= i < keys.len() && keys[i] == k;
                assert(self.entries[i].key == k);
            }
        }
        keys.unique_seq_to_set();
        vstd::seq_lib::seq_to_set_is_finite(keys);
    }

}

impl<K: Key, V: View> Table<K, V> {
    /// An empty table.
    pub fn new() -> (table: Self)
        ensures
            table@ == Map::<K, V::V>::empty(),
    {
        let table = Table { entries: Vec::new() };
        assert(table@ =~= Map::<K, V::V>::empty());
        table
    }

    fn position(&self, key: &K) -> (found: Option<usize>)
        ensures
            match found {
                Some(i) => i < self.entries.len() && self.entries[i as int].key == *key,
                None => !self.holds(*key),
            },
    {
        let mut i: usize = 0;
        while i < self.entries.len()
            invariant
                i <= self.entries.len(),
                forall|j: int| 0 <= j < i ==> self.entries[j].key != *key,
            decreases self.entries.len() - i,
        {
            if self.entries[i].key.same(key) {
                return Some(i);
            }
            i += 1;
        }
        None
    }

    /// The number of keys.
    pub fn len(&self) -> (n: usize)
        ensures
            self@.dom().finite(),
            n == self@.len(),
    {
        proof {
            use_type_invariant(self);
            self.lemma_domain();
        }
        self.entries.len()
    }

    /// Whether `key` has a value.
    pub fn contains_key(&self, key: &K) -> (found: bool)
        ensures
            found == self@.contains_key(*key),
    {
        self.position(key).is_some()
    }

    /// The value under `key`, if it has one.
    pub fn get(&self, key: &K) -> (value: Option<&V>)
        ensures
            match value {
                Some(v) => self@.contains_key(*key) && self@[*key] == v@,
                None => !self@.contains_key(*key),
            },
    {
        match self.position(key) {
            Some(i) => {
                proof {
                    use_type_invariant(self);
                    self.lemma_entry(i as int);
                }
                Some(&self.entries[i].value)
            },
            None => None,
        }
    }

    /// Puts `value` under `key` and hands back what was there before.
    pub fn insert(&mut self, key: K, value: V) -> (replaced: Option<V>)
        ensures
            final(self)@ == old(self)@.insert(key, value@),
            match replaced {
                Some(v) => old(self)@.contains_key(key) && old(self)@[key] == v@,
                None => !old(self)@.contains_key(key),
            },
    {
        proof {
            use_type_invariant(&*self);
        }
        let found = self.position(&key);
        let mut entries: Vec<Entry<K, V>> = Vec::new();
        core::mem::swap(&mut self.entries, &mut entries);
        let replaced = match found {
            Some(i) => {
                proof {
                    old(self).lemma_entry(i as int);
                }
                Some(entries.remove(i).value)
            },
            None => None,
        };
        entries.push(Entry { key, value });
        core::mem::swap(&mut self.entries, &mut entries);
        proof {
            assert(self.distinct_keys());
            assert forall|k: K| self.holds(k) == (k == key || old(self).holds(k)) by {
                if self.holds(k) {
                    let i = self.index_of(k);
                    assert(self.entries[i].key == k);
                }
                if k != key && old(self).holds(k) {
                    let i = old(self).index_of(k);
                    let j = if found is Some && i > found.unwrap() { i - 1 } else { i };
                    assert(self.entries[j].key == k);
                }
                if k == key {
                    assert(self.entries[self.entries.len() - 1].key == k);
                }
            }
            assert forall|k: K| self.holds(k) implies self@[k] == old(self)@.insert(key, value@)[k] by {
                let i = self.index_of(k);
                self.lemma_entry(i);
                if k == key {
                    self.lemma_entry(self.entries.len() - 1);
                } else {
                    let j = if found is Some && i >= found.unwrap() { i + 1 } else { i };
                    old(self).lemma_entry(j);
                }
            }
            assert(self@ =~= old(self)@.insert(key, value@));
        }
        replaced
    }

    /// Takes `key` out and hands back what was under it.
    pub fn remove(&mut self, key: &K) -> (removed: Option<V>)
        ensures
            final(self)@ == old(self)@.remove(*key),
            match removed {
                Some(v) => old(self)@.contains_key(*key) && old(self)@[*key] == v@,
                None => !old(self)@.contains_key(*key),
            },
    {
        proof {
            use_type_invariant(&*self);
        }
        let found = self.position(key);
        match found {
            Some(i) => {
                let mut entries: Vec<Entry<K, V>> = Vec::new();
                core::mem::swap(&mut self.entries, &mut entries);
                let entry = entries.remove(i);
                core::mem::swap(&mut self.entries, &mut entries);
                proof {
                    old(self).lemma_entry(i as int);
                    assert(self.distinct_keys());
                    assert forall|k: K| self.holds(k) == (k != *key && old(self).holds(k)) by {
                        if self.holds(k) {
                            let j = self.index_of(k);
                            let j0 = if j >= i { j + 1 } else { j };
                            assert(old(self).entries[j0].key == k);
                            old(self).lemma_entry(j0);
                        }
                        if k != *key && old(self).holds(k) {
                            let j0 = old(self).index_of(k);
                            let j = if j0 > i { j0 - 1 } else { j0 };
                            assert(self.entries[j].key == k);
                        }
                    }
                    assert forall|k: K| self.holds(k) implies self@[k] == old(self)@[k] by {
                        let j = self.index_of(k);
                        self.lemma_entry(j);
                        let j0 = if j >= i { j + 1 } else { j };
                        old(self).lemma_entry(j0);
                    }
                    assert(self@ =~= old(self)@.remove(*key));
                }
                Some(entry.value)
            },
            None => {
                assert(self@ =~= old(self)@.remove(*key));
                None
            },
        }
    }

    /// The keys, each once, in no particular order.
    pub fn keys(&self) -> (keys: Vec<K>) where K: Copy
        ensures
            keys@.no_duplicates(),
            keys@.to_set() == self@.dom(),
    {
        proof {
            use_type_invariant(self);
        }
        let mut keys: Vec<K> = Vec::new();
        let mut i: usize = 0;
        while i < self.entries.len()
            invariant
                i <= self.entries.len(),
                keys@.len() == i,
                forall|j: int| 0 <= j < i ==> keys@[j] == self.entries[j].key,
            decreases self.entries.len() - i,
        {
            keys.push(self.entries[i].key);
            i += 1;
        }
        proof {
            assert forall|j: int, l: int| 0 <= j < keys@.len() && 0 <= l < keys@.len() && j != l implies keys@[j] != keys@[l] by {
                if j < l {
                    assert(self.entries[j].key != self.entries[l].key);
                } else {
                    assert(self.entries[l].key != self.entries[j].key);
                }
            }
            assert forall|k: K| keys@.to_set().contains(k) == self@.dom().contains(k) by {
                if keys@.to_set().contains(k) {
                    let j = choose|j: int| 0 <= j < keys@.len() && keys@[j] == k;
                    assert(self.entries[j].key == k);
                }
                if self.holds(k) {
                    let j = self.index_of(k);
                    assert(keys@[j] == k);
                }
            }
            assert(keys@.to_set() =~= self@.dom());
        }
        keys
    }
}

} // verus!
