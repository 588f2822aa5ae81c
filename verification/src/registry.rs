//! A keyed registry: a map from keys to values held as a vector of entries,
//! each key at most once, in the order the keys were first inserted.

use crate::domain::entities::UserId;
use vstd::prelude::*;

verus! {

/// Keys that can be compared by their view.
pub trait Keyed: View + Sized {
    /// Whether the two keys have the same view.
    fn same_key(&self, other: &Self) -> (r: bool)
        ensures
            r == (self@ == other@),
    ;
}

impl Keyed for UserId {
    fn same_key(&self, other: &Self) -> (r: bool) {
        *self == *other
    }
}

impl Keyed for String {
    fn same_key(&self, other: &Self) -> (r: bool) {
        *self == *other
    }
}

/// A map from keys (compared by view) to values.
pub struct Registry<K: Keyed, V> {
    entries: Vec<(K, V)>,
}

impl<K: Keyed, V> Registry<K, V> {
    /// No key occurs twice.
    pub closed spec fn wf(self) -> bool {
        forall|i: int, j: int|
            0 <= i < self.entries@.len() && 0 <= j < self.entries@.len() && i != j ==> (
            #[trigger] self.entries@[i]).0@ != (#[trigger] self.entries@[j]).0@
    }

    /// The entries, in the order their keys were first inserted.
    pub closed spec fn entries(self) -> Seq<(K, V)> {
        self.entries@
    }

    /// Whether some entry has the key.
    pub open spec fn has_key(self, k: K::V) -> bool {
        exists|i: int| 0 <= i < self.entries().len() && (#[trigger] self.entries()[i]).0@ == k
    }

    /// The position of the entry with the key.
    pub open spec fn index_of(self, k: K::V) -> int {
        choose|i: int| 0 <= i < self.entries().len() && (#[trigger] self.entries()[i]).0@ == k
    }

    /// The registry as a map from key views to values.
    pub open spec fn as_map(self) -> Map<K::V, V> {
        Map::new(|k: K::V| self.has_key(k), |k: K::V| self.entries()[self.index_of(k)].1)
    }

    /// The entries' keys are distinct.
    pub proof fn lemma_unique(&self)
        requires
            self.wf(),
        ensures
            forall|i: int, j: int|
                0 <= i < self.entries().len() && 0 <= j < self.entries().len() && i != j ==> (
                #[trigger] self.entries()[i]).0@ != (#[trigger] self.entries()[j]).0@,
    {
    }

    /// Each entry is what the map holds for its key.
    pub proof fn lemma_entry_in_map(&self, i: int)
        requires
            self.wf(),
            0 <= i < self.entries().len(),
        ensures
            self.as_map().contains_key(self.entries()[i].0@),
            self.as_map()[self.entries()[i].0@] == self.entries()[i].1,
            self.index_of(self.entries()[i].0@) == i,
    {
        assert(self.has_key(self.entries()[i].0@));
    }

    /// The map has exactly one key per entry.
    pub proof fn lemma_len(&self)
        requires
            self.wf(),
        ensures
            self.as_map().dom().finite(),
            self.as_map().dom().len() == self.entries().len(),
    {
        let keys = self.entries().map_values(|e: (K, V)| e.0@);
        assert forall|a: int, b: int|
            0 <= a < keys.len() && 0 <= b < keys.len() && a != b implies keys[a] != keys[b] by {}
        assert(keys.no_duplicates());
        keys.unique_seq_to_set();
        assert(keys.to_set() =~= self.as_map().dom()) by {
            assert forall|k: K::V| keys.to_set().contains(k) <==> self.as_map().dom().contains(k) by {
                if keys.to_set().contains(k) {
                    let j = choose|j: int| 0 <= j < keys.len() && keys[j] == k;
                    self.lemma_entry_in_map(j);
                }
                if self.as_map().dom().contains(k) {
                    let j = self.index_of(k);
                    assert(keys[j] == k);
                }
            }
        }
    }

    /// An empty registry.
    pub fn new() -> (r: Self)
        ensures
            r.wf(),
            r.entries() == Seq::<(K, V)>::empty(),
            r.as_map() == Map::<K::V, V>::empty(),
    {
        let r = Registry { entries: Vec::new() };
        assert(r.as_map() =~= Map::<K::V, V>::empty());
        r
    }

    /// The number of entries.
    pub fn len(&self) -> (n: usize)
        ensures
            n == self.entries().len(),
    {
        self.entries.len()
    }

    /// The entry at a position.
    pub fn entry(&self, i: usize) -> (e: &(K, V))
        requires
            i < self.entries().len(),
        ensures
            *e == self.entries()[i as int],
    {
        &self.entries[i]
    }

    /// The position of the key, if present.
    pub fn find(&self, k: &K) -> (r: Option<usize>)
        requires
            self.wf(),
        ensures
            r is None <==> !self.has_key(k@),
            r matches Some(i) ==> i < self.entries().len() && self.entries()[i as int].0@ == k@
                && i == self.index_of(k@),
    {
        let mut i: usize = 0;
        while i < self.entries.len()
            invariant
                self.wf(),
                i <= self.entries@.len(),
                forall|j: int| 0 <= j < i ==> (#[trigger] self.entries@[j]).0@ != k@,
            decreases self.entries@.len() - i,
        {
            if self.entries[i].0.same_key(k) {
                proof {
                    self.lemma_entry_in_map(i as int);
                }
                return Some(i);
            }
            i += 1;
        }
        None
    }

    /// The value of the key, if present.
    pub fn get(&self, k: &K) -> (r: Option<&V>)
        requires
            self.wf(),
        ensures
            r is Some <==> self.as_map().contains_key(k@),
            r matches Some(v) ==> *v == self.as_map()[k@],
    {
        match self.find(k) {
            Some(i) => {
                proof {
                    self.lemma_entry_in_map(i as int);
                }
                Some(&self.entries[i].1)
            },
            None => None,
        }
    }

    /// Sets the value of a key; a new key goes after all the others.
    pub fn insert(&mut self, k: K, v: V)
        requires
            old(self).wf(),
        ensures
            final(self).wf(),
            final(self).as_map() == old(self).as_map().insert(k@, v),
            old(self).has_key(k@) ==> final(self).entries() == old(self).entries().update(
                old(self).index_of(k@),
                (k, v),
            ),
            !old(self).has_key(k@) ==> final(self).entries() == old(self).entries().push((k, v)),
    {
        let ghost old_map = self.as_map();
        let ghost old_entries = self.entries@;
        match self.find(&k) {
            Some(i) => {
                let ghost kv = k@;
                self.entries.set(i, (k, v));
                proof {
                    assert forall|a: int, b: int|
                        0 <= a < self.entries@.len() && 0 <= b < self.entries@.len() && a
                            != b implies (#[trigger] self.entries@[a]).0@ != (
                    #[trigger] self.entries@[b]).0@ by {
                        assert(old_entries[a].0@ != old_entries[b].0@);
                        if a == i {
                            assert(old_entries[a].0@ == kv);
                        }
                        if b == i {
                            assert(old_entries[b].0@ == kv);
                        }
                    }
                    assert(self.as_map() =~= old_map.insert(kv, v)) by {
                        assert forall|key: K::V| #[trigger]
                            self.as_map().contains_key(key) == old_map.insert(
                                kv,
                                v,
                            ).contains_key(key) by {
                            if old_map.insert(kv, v).contains_key(key) && key != kv {
                                let j = choose|x: int|
                                    0 <= x < old_entries.len() && (#[trigger] old_entries[x]).0@
                                        == key;
                                assert(j != i);
                                assert(self.entries@[j].0@ == key);
                            }
                            if key == kv {
                                assert(self.entries@[i as int].0@ == kv);
                            }
                            if self.has_key(key) && key != kv {
                                let j = self.index_of(key);
                                assert(old_entries[j].0@ == key);
                            }
                        }
                        assert forall|key: K::V| #[trigger]
                            self.as_map().contains_key(key) implies self.as_map()[key]
                            == old_map.insert(kv, v)[key] by {
                            let j = self.index_of(key);
                            if key == kv {
                                assert(self.entries@[i as int].0@ == kv);
                            } else {
                                assert(old_entries[j].0@ == key);
                                assert(old_map.contains_key(key));
                                let jo = choose|x: int|
                                    0 <= x < old_entries.len() && (#[trigger] old_entries[x]).0@
                                        == key;
                                assert(jo == j);
                            }
                        }
                    }
                }
            },
            None => {
                let ghost kv = k@;
                self.entries.push((k, v));
                proof {
                    assert forall|a: int, b: int|
                        0 <= a < self.entries@.len() && 0 <= b < self.entries@.len() && a
                            != b implies (#[trigger] self.entries@[a]).0@ != (
                    #[trigger] self.entries@[b]).0@ by {
                        if a < old_entries.len() && b < old_entries.len() {
                            assert(old_entries[a].0@ != old_entries[b].0@);
                        } else if a < old_entries.len() {
                            assert(old_entries[a].0@ != kv);
                        } else {
                            assert(old_entries[b].0@ != kv);
                        }
                    }
                    assert(self.as_map() =~= old_map.insert(kv, v)) by {
                        assert forall|key: K::V| #[trigger]
                            self.as_map().contains_key(key) == old_map.insert(
                                kv,
                                v,
                            ).contains_key(key) by {
                            if key == kv {
                                assert(self.entries@[old_entries.len() as int].0@ == kv);
                            } else if old_map.contains_key(key) {
                                let j = choose|x: int|
                                    0 <= x < old_entries.len() && (#[trigger] old_entries[x]).0@
                                        == key;
                                assert(self.entries@[j].0@ == key);
                            } else if self.has_key(key) {
                                let j = self.index_of(key);
                                assert(old_entries[j].0@ == key);
                            }
                        }
                        assert forall|key: K::V| #[trigger]
                            self.as_map().contains_key(key) implies self.as_map()[key]
                            == old_map.insert(kv, v)[key] by {
                            let j = self.index_of(key);
                            if key == kv {
                                assert(self.entries@[old_entries.len() as int].0@ == kv);
                                assert(j == old_entries.len());
                            } else {
                                assert(j < old_entries.len());
                                assert(old_entries[j].0@ == key);
                                let jo = choose|x: int|
                                    0 <= x < old_entries.len() && (#[trigger] old_entries[x]).0@
                                        == key;
                                assert(jo == j);
                            }
                        }
                    }
                }
            },
        }
    }

    /// Removes a key; the other entries keep their order.
    pub fn remove(&mut self, k: &K)
        requires
            old(self).wf(),
        ensures
            final(self).wf(),
            final(self).as_map() == old(self).as_map().remove(k@),
            old(self).has_key(k@) ==> final(self).entries() == old(self).entries().remove(
                old(self).index_of(k@),
            ),
            !old(self).has_key(k@) ==> final(self).entries() == old(self).entries(),
    {
        let ghost old_map = self.as_map();
        let ghost old_entries = self.entries@;
        match self.find(k) {
            Some(i) => {
                let _ = self.entries.remove(i);
                proof {
                    let ne = self.entries@;
                    assert(ne == old_entries.remove(i as int));
                    assert forall|a: int| 0 <= a < ne.len() implies #[trigger] ne[a] == (if a
                        < i {
                        old_entries[a]
                    } else {
                        old_entries[a + 1]
                    }) by {}
                    assert forall|a: int, b: int|
                        0 <= a < ne.len() && 0 <= b < ne.len() && a != b implies (
                    #[trigger] ne[a]).0@ != (#[trigger] ne[b]).0@ by {
                        let oa = if a < i {
                            a
                        } else {
                            a + 1
                        };
                        let ob = if b < i {
                            b
                        } else {
                            b + 1
                        };
                        assert(old_entries[oa].0@ != old_entries[ob].0@);
                    }
                    assert(self.as_map() =~= old_map.remove(k@)) by {
                        assert forall|key: K::V| #[trigger]
                            self.as_map().contains_key(key) == old_map.remove(k@).contains_key(
                                key,
                            ) by {
                            if self.has_key(key) {
                                let j = self.index_of(key);
                                let oj = if j < i {
                                    j
                                } else {
                                    j + 1
                                };
                                assert(old_entries[oj].0@ == key);
                                assert(oj != i);
                            }
                            if old_map.remove(k@).contains_key(key) {
                                let oj = choose|x: int|
                                    0 <= x < old_entries.len() && (#[trigger] old_entries[x]).0@
                                        == key;
                                assert(oj != i);
                                let j = if oj < i {
                                    oj
                                } else {
                                    oj - 1
                                };
                                assert(ne[j].0@ == key);
                            }
                        }
                        assert forall|key: K::V| #[trigger]
                            self.as_map().contains_key(key) implies self.as_map()[key]
                            == old_map.remove(k@)[key] by {
                            let j = self.index_of(key);
                            let oj = if j < i {
                                j
                            } else {
                                j + 1
                            };
                            assert(old_entries[oj].0@ == key);
                            let jo = choose|x: int|
                                0 <= x < old_entries.len() && (#[trigger] old_entries[x]).0@
                                    == key;
                            assert(jo == oj);
                        }
                    }
                }
            },
            None => {
                proof {
                    assert(self.as_map() =~= old_map.remove(k@));
                }
            },
        }
    }
}

} // verus!
