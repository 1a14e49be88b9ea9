//! A table from names to values that keeps its entries in insertion order
//! and holds each name at most once. It stands where a string-keyed hash
//! map would: with `String` keys, vstd's specification of `HashMap` lets
//! next to nothing be proved of lookups (its key equality is not tied to
//! the keys' text), while a list of pairs with distinct names can be
//! reasoned about completely; it also fixes an order (insertion order)
//! where a hash map's walk order is left open.
use crate::text::str_eq;
use vstd::prelude::*;

verus! {

/// A table from names to values: entries stay in the order in which their
/// names were first inserted, and no name occurs twice.
pub struct NamedTable<V> {
    entries: Vec<(String, V)>,
}

impl<V> NamedTable<V> {
    /// The entries, as (name, value) pairs in table order.
    pub closed spec fn pairs(self) -> Seq<(Seq<char>, V)> {
        pairs_of(self.entries@)
    }

    /// The names of the table, in table order.
    pub open spec fn names(self) -> Seq<Seq<char>> {
        self.pairs().map_values(|p: (Seq<char>, V)| p.0)
    }

    /// Whether no name occurs twice; this holds of every table.
    #[verifier::type_invariant]
    pub open spec fn distinct_names(self) -> bool {
        forall|i: int, j: int|
            0 <= i < self.pairs().len() && 0 <= j < self.pairs().len() && i != j
                ==> #[trigger] self.pairs()[i].0 != #[trigger] self.pairs()[j].0
    }

    /// Whether the table has an entry named `k`.
    pub open spec fn has(self, k: Seq<char>) -> bool {
        exists|i: int| 0 <= i < self.pairs().len() && #[trigger] self.pairs()[i].0 == k
    }

    /// The position of the entry named `k` (meaningful when `has(k)`).
    pub open spec fn position(self, k: Seq<char>) -> int {
        choose|i: int| 0 <= i < self.pairs().len() && #[trigger] self.pairs()[i].0 == k
    }

    /// The table as a map from names to values.
    pub open spec fn view(self) -> Map<Seq<char>, V> {
        Map::new(|k: Seq<char>| self.has(k), |k: Seq<char>| self.pairs()[self.position(k)].1)
    }

    /// The entry at a position is the one that the table maps its name to.
    pub proof fn lemma_pair_in_view(self, i: int)
        requires
            self.distinct_names(),
            0 <= i < self.pairs().len(),
        ensures
            self.view().contains_key(self.pairs()[i].0),
            self.view()[self.pairs()[i].0] == self.pairs()[i].1,
            self.position(self.pairs()[i].0) == i,
    {
        let k = self.pairs()[i].0;
        assert(self.has(k));
    }

    /// An empty table.
    pub fn new() -> (t: Self)
        ensures
            t.pairs() == Seq::<(Seq<char>, V)>::empty(),
            t.view() == Map::<Seq<char>, V>::empty(),
    {
        let t = NamedTable { entries: Vec::new() };
        assert(t.pairs() =~= Seq::<(Seq<char>, V)>::empty());
        assert(t.view() =~= Map::<Seq<char>, V>::empty());
        t
    }

    /// The number of entries.
    pub fn len(&self) -> (n: usize)
        ensures
            n == self.pairs().len(),
    {
        self.entries.len()
    }

    /// The name of the entry at position `i`.
    pub fn name_at(&self, i: usize) -> (r: &String)
        requires
            i < self.pairs().len(),
        ensures
            r@ == self.pairs()[i as int].0,
    {
        &self.entries[i].0
    }

    /// The value of the entry at position `i`.
    pub fn value_at(&self, i: usize) -> (r: &V)
        requires
            i < self.pairs().len(),
        ensures
            *r == self.pairs()[i as int].1,
    {
        &self.entries[i].1
    }

    /// The position of the entry named `key`, if there is one.
    pub fn find(&self, key: &str) -> (r: Option<usize>)
        ensures
            match r {
                Some(i) => i < self.pairs().len() && self.pairs()[i as int].0 == key@,
                None => !self.has(key@),
            },
    {
        let mut i: usize = 0;
        while i < self.entries.len()
            invariant
                i <= self.entries@.len(),
                self.pairs().len() == self.entries@.len(),
                forall|j: int| 0 <= j < i ==> self.pairs()[j].0 != key@,
            decreases self.entries@.len() - i,
        {
            if str_eq(self.entries[i].0.as_str(), key) {
                return Some(i);
            }
            i = i + 1;
        }
        None
    }

    /// The value of the entry named `key`, if there is one.
    pub fn get(&self, key: &str) -> (r: Option<&V>)
        ensures
            match r {
                Some(v) => self.view().contains_key(key@) && self.view()[key@] == *v,
                None => !self.view().contains_key(key@),
            },
    {
        match self.find(key) {
            Some(i) => {
                proof {
                    use_type_invariant(self);
                    self.lemma_pair_in_view(i as int);
                }
                Some(&self.entries[i].1)
            },
            None => None,
        }
    }

    /// Sets the value of the entry named `key`, adding the entry at the end
    /// when the name is new (the name then keeps that position).
    pub fn insert(&mut self, key: String, value: V)
        ensures
            final(self).view() == old(self).view().insert(key@, value),
            final(self).names() == (if old(self).has(key@) {
                old(self).names()
            } else {
                old(self).names().push(key@)
            }),
    {
        proof {
            use_type_invariant(&*self);
        }
        let ghost old_pairs = self.pairs();
        let ghost old_view = self.view();
        let ghost old_names = self.names();
        let ghost k = key@;
        let found = self.find(key.as_str());
        let mut entries: Vec<(String, V)> = Vec::new();
        std::mem::swap(&mut entries, &mut self.entries);
        assert(pairs_of(entries@) == old_pairs);
        let ghost n = old_pairs.len() as int;
        match found {
            Some(i) => {
                entries.set(i, (key, value));
                proof {
                    assert(pairs_of(entries@) =~= old_pairs.update(i as int, (k, value)));
                }
            },
            None => {
                entries.push((key, value));
                proof {
                    assert(pairs_of(entries@) =~= old_pairs.push((k, value)));
                }
            },
        }
        let ghost new_pairs = pairs_of(entries@);
        proof {
            assert forall|a: int, b: int|
                0 <= a < new_pairs.len() && 0 <= b < new_pairs.len() && a != b
                    implies #[trigger] new_pairs[a].0 != #[trigger] new_pairs[b].0 by {
                if a < n && b < n {
                    if found is Some {
                        let i = found->0 as int;
                        if a != i && b != i {
                            assert(old_pairs[a].0 != old_pairs[b].0);
                        } else if a == i {
                            assert(old_pairs[b].0 != old_pairs[i].0);
                        } else {
                            assert(old_pairs[a].0 != old_pairs[i].0);
                        }
                    } else {
                        assert(old_pairs[a].0 != old_pairs[b].0);
                    }
                } else if a == n {
                    assert(old_pairs[b].0 != k);
                } else {
                    assert(old_pairs[a].0 != k);
                }
            }
        }
        self.entries = entries;
        proof {
            assert(self.pairs() == new_pairs);
            if found is Some {
                assert(self.names() =~= old_names);
            } else {
                assert(self.names() =~= old_names.push(k));
            }
            assert forall|k2: Seq<char>| #[trigger]
                self.view().contains_key(k2) == old_view.insert(k, value).contains_key(k2) by {
                if old_view.contains_key(k2) {
                    let p = choose|j: int| 0 <= j < old_pairs.len() && #[trigger] old_pairs[j].0 == k2;
                    if k2 != k {
                        assert(new_pairs[p].0 == k2);
                    }
                }
                if k2 == k {
                    if found is Some {
                        assert(new_pairs[found->0 as int].0 == k2);
                    } else {
                        assert(new_pairs[n].0 == k2);
                    }
                }
                if self.has(k2) && k2 != k {
                    let p = choose|j: int| 0 <= j < new_pairs.len() && #[trigger] new_pairs[j].0 == k2;
                    assert(old_pairs[p].0 == k2);
                }
            }
            assert forall|k2: Seq<char>| #[trigger] self.view().contains_key(k2) implies self.view()[k2]
                == old_view.insert(k, value)[k2] by {
                let p = self.position(k2);
                self.lemma_pair_in_view(p);
                if k2 != k {
                    assert(old_pairs[p].0 == k2);
                    assert(old_view.contains_key(k2));
                    let q = old_self_position(old_pairs, k2);
                    if q != p {
                        assert(old_pairs[q].0 != old_pairs[p].0);
                    }
                }
            }
            assert(self.view() =~= old_view.insert(k, value));
        }
    }
}

impl<V> NamedTable<V> {
    /// Removes the entry named `key`, if there is one; the other entries
    /// keep their order.
    pub fn remove(&mut self, key: &str) -> (r: Option<V>)
        ensures
            final(self).view() == old(self).view().remove(key@),
            match r {
                Some(v) => old(self).view().contains_key(key@) && old(self).view()[key@] == v,
                None => !old(self).view().contains_key(key@),
            },
    {
        proof {
            use_type_invariant(&*self);
        }
        let ghost old_pairs = self.pairs();
        let ghost old_view = self.view();
        let ghost k = key@;
        match self.find(key) {
            Some(i) => {
                proof {
                    self.lemma_pair_in_view(i as int);
                }
                let mut entries: Vec<(String, V)> = Vec::new();
                std::mem::swap(&mut entries, &mut self.entries);
                assert(pairs_of(entries@) == old_pairs);
                let (_, v) = entries.remove(i);
                let ghost new_pairs = pairs_of(entries@);
                proof {
                    assert(new_pairs =~= old_pairs.remove(i as int));
                    assert forall|a: int, b: int|
                        0 <= a < new_pairs.len() && 0 <= b < new_pairs.len() && a != b
                            implies #[trigger] new_pairs[a].0 != #[trigger] new_pairs[b].0 by {
                        let a2 = if a < i { a } else { a + 1 };
                        let b2 = if b < i { b } else { b + 1 };
                        assert(old_pairs[a2].0 != old_pairs[b2].0);
                    }
                }
                self.entries = entries;
                proof {
                    assert forall|k2: Seq<char>| #[trigger]
                        self.view().contains_key(k2) == old_view.remove(k).contains_key(k2) by {
                        if old_view.contains_key(k2) && k2 != k {
                            let p = choose|j: int| 0 <= j < old_pairs.len() && #[trigger] old_pairs[j].0 == k2;
                            assert(p != i);
                            let q = if p < i { p } else { p - 1 };
                            assert(new_pairs[q].0 == k2);
                        }
                        if self.has(k2) {
                            let p = choose|j: int| 0 <= j < new_pairs.len() && #[trigger] new_pairs[j].0 == k2;
                            let q = if p < i { p } else { p + 1 };
                            assert(old_pairs[q].0 == k2);
                            assert(q != i);
                        }
                    }
                    assert forall|k2: Seq<char>| #[trigger] self.view().contains_key(k2) implies self.view()[k2]
                        == old_view.remove(k)[k2] by {
                        let p = self.position(k2);
                        self.lemma_pair_in_view(p);
                        let q = if p < i { p } else { p + 1 };
                        assert(old_pairs[q].0 == k2);
                        let w = old_self_position(old_pairs, k2);
                        if w != q {
                            assert(old_pairs[w].0 != old_pairs[q].0);
                        }
                    }
                    assert(self.view() =~= old_view.remove(k));
                }
                Some(v)
            },
            None => {
                proof {
                    assert(self.view() =~= old_view.remove(k));
                }
                None
            },
        }
    }
}

/// The (name, value) pairs of a list of entries.
pub open spec fn pairs_of<V>(entries: Seq<(String, V)>) -> Seq<(Seq<char>, V)> {
    entries.map_values(|e: (String, V)| (e.0@, e.1))
}

spec fn old_self_position<V>(pairs: Seq<(Seq<char>, V)>, k: Seq<char>) -> int {
    choose|i: int| 0 <= i < pairs.len() && #[trigger] pairs[i].0 == k
}

} // verus!
