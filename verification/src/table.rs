use vstd::prelude::*;

verus! {

/// Keys that can be told apart in executable code exactly as their views are.
pub trait KeyView: View + Sized {
    fn same_key(&self, other: &Self) -> (b: bool)
        ensures
            b == (self@ == other@),
    ;
}

/// A small association table: each key, taken by its view, occurs at most once.
///
/// std's `HashMap` is specified in vstd only for keys whose hashing and
/// equality vstd knows to agree with their views; the keys here are structs
/// that hold `String`s, for which such a map would let nothing be proved. So
/// the table is a vector of entries, and that no key occurs twice is its
/// invariant (`wf`).
pub struct Table<K, V> {
    entries: Vec<(K, V)>,
}

impl<K: KeyView, V> View for Table<K, V> {
    type V = Map<K::V, V>;

    /// The table as a map from key views to values.
    closed spec fn view(&self) -> Map<K::V, V> {
        Map::new(
            |k: K::V| exists|i: int| 0 <= i < self.entries@.len() && self.entries@[i].0@ == k,
            |k: K::V| self.entries@[choose|i: int| 0 <= i < self.entries@.len() && self.entries@[i].0@ == k].1,
        )
    }
}

impl<K: KeyView, V> Table<K, V> {
    pub closed spec fn wf(&self) -> bool {
        forall|i: int, j: int|
            0 <= i < j < self.entries@.len() ==> #[trigger] self.entries@[i].0@
                != #[trigger] self.entries@[j].0@
    }

    spec fn index_of(&self, k: K::V) -> int {
        choose|i: int| 0 <= i < self.entries@.len() && self.entries@[i].0@ == k
    }


    proof fn lemma_index(&self, i: int)
        requires
            self.wf(),
            0 <= i < self.entries@.len(),
        ensures
            self.view().contains_key(self.entries@[i].0@),
            self.index_of(self.entries@[i].0@) == i,
            self.view()[self.entries@[i].0@] == self.entries@[i].1,
    {
        let k = self.entries@[i].0@;
        assert(exists|j: int| 0 <= j < self.entries@.len() && self.entries@[j].0@ == k);
        let j = self.index_of(k);
        if j != i {
            if j < i {
                assert(self.entries@[j].0@ != self.entries@[i].0@);
            } else {
                assert(self.entries@[i].0@ != self.entries@[j].0@);
            }
        }
    }

    pub fn new() -> (t: Self)
        ensures
            t.wf(),
            t.view() == Map::<K::V, V>::empty(),
    {
        let t = Table { entries: Vec::new() };
        assert(t.view() =~= Map::<K::V, V>::empty());
        t
    }

    /// Where `k` stands in the table, if it does.
    fn find(&self, k: &K) -> (r: Option<usize>)
        requires
            self.wf(),
        ensures
            match r {
                Some(i) => i < self.entries@.len() && self.entries@[i as int].0@ == k@,
                None => !self.view().contains_key(k@),
            },
    {
        let mut i: usize = 0;
        while i < self.entries.len()
            invariant
                i <= self.entries@.len(),
                forall|j: int| 0 <= j < i ==> self.entries@[j].0@ != k@,
            decreases self.entries@.len() - i,
        {
            if self.entries[i].0.same_key(k) {
                return Some(i);
            }
            i = i + 1;
        }
        None
    }

    pub fn len(&self) -> (n: usize)
        requires
            self.wf(),
        ensures
            n == self.view().len(),
    {
        proof {
            self.lemma_len();
        }
        self.entries.len()
    }

    pub fn contains_key(&self, k: &K) -> (b: bool)
        requires
            self.wf(),
        ensures
            b == self.view().contains_key(k@),
    {
        match self.find(k) {
            Some(i) => {
                proof {
                    self.lemma_index(i as int);
                }
                true
            },
            None => false,
        }
    }

    pub fn get(&self, k: &K) -> (r: Option<&V>)
        requires
            self.wf(),
        ensures
            match r {
                Some(v) => self.view().contains_key(k@) && self.view()[k@] == *v,
                None => !self.view().contains_key(k@),
            },
    {
        match self.find(k) {
            Some(i) => {
                proof {
                    self.lemma_index(i as int);
                }
                Some(&self.entries[i].1)
            },
            None => None,
        }
    }

    /// Puts `v` under `k`, giving back what stood there before.
    pub fn insert(&mut self, k: K, v: V) -> (old_v: Option<V>)
        requires
            old(self).wf(),
        ensures
            final(self).wf(),
            final(self).view() == old(self).view().insert(k@, v),
            match old_v {
                Some(x) => old(self).view().contains_key(k@) && old(self).view()[k@] == x,
                None => !old(self).view().contains_key(k@),
            },
    {
        match self.find(&k) {
            Some(i) => {
                proof {
                    self.lemma_index(i as int);
                }
                let ghost kv = k@;
                let ghost before = *self;
                let (_, prev) = self.entries.remove(i);
                self.entries.insert(i, (k, v));
                proof {
                    assert(self.entries@ == before.entries@.update(i as int, self.entries@[i as int]));
                    assert forall|a: int, b: int| 0 <= a < b < self.entries@.len() implies
                        #[trigger] self.entries@[a].0@ != #[trigger] self.entries@[b].0@ by {
                        assert(before.entries@[a].0@ != before.entries@[b].0@);
                    }
                    assert forall|q: K::V| #[trigger] self.view().contains_key(q) <==>
                        before.view().insert(kv, v).contains_key(q) by {
                        if before.view().contains_key(q) && q != kv {
                            let j = before.index_of(q);
                            assert(self.entries@[j].0@ == q);
                        }
                        if self.view().contains_key(q) && q != kv {
                            let j = self.index_of(q);
                            assert(before.entries@[j].0@ == q);
                        }
                    }
                    assert forall|q: K::V| #[trigger] self.view().contains_key(q) implies
                        self.view()[q] == before.view().insert(kv, v)[q] by {
                        let j = self.index_of(q);
                        self.lemma_index(j);
                        if q != kv {
                            before.lemma_index(j);
                        }
                    }
                    assert(self.view() =~= before.view().insert(kv, v));
                }
                Some(prev)
            },
            None => {
                let ghost kv = k@;
                let ghost before = *self;
                self.entries.push((k, v));
                proof {
                    let n = before.entries@.len() as int;
                    assert forall|a: int, b: int| 0 <= a < b < self.entries@.len() implies
                        #[trigger] self.entries@[a].0@ != #[trigger] self.entries@[b].0@ by {
                        if b == n {
                            assert(before.entries@[a].0@ != kv);
                        } else {
                            assert(before.entries@[a].0@ != before.entries@[b].0@);
                        }
                    }
                    assert forall|q: K::V| #[trigger] self.view().contains_key(q) <==>
                        before.view().insert(kv, v).contains_key(q) by {
                        if before.view().contains_key(q) {
                            let j = before.index_of(q);
                            assert(self.entries@[j].0@ == q);
                        }
                        if q == kv {
                            assert(self.entries@[n].0@ == q);
                        }
                    }
                    assert forall|q: K::V| #[trigger] self.view().contains_key(q) implies
                        self.view()[q] == before.view().insert(kv, v)[q] by {
                        let j = self.index_of(q);
                        self.lemma_index(j);
                        if j < n {
                            before.lemma_index(j);
                        }
                    }
                    assert(self.view() =~= before.view().insert(kv, v));
                }
                None
            },
        }
    }

    /// Takes `k` out of the table, giving back the value that stood under it.
    pub fn remove(&mut self, k: &K) -> (old_v: Option<V>)
        requires
            old(self).wf(),
        ensures
            final(self).wf(),
            final(self).view() == old(self).view().remove(k@),
            match old_v {
                Some(x) => old(self).view().contains_key(k@) && old(self).view()[k@] == x,
                None => !old(self).view().contains_key(k@),
            },
    {
        match self.find(k) {
            Some(i) => {
                proof {
                    self.lemma_index(i as int);
                }
                let ghost kv = k@;
                let ghost before = *self;
                let (_, prev) = self.entries.remove(i);
                proof {
                    assert forall|a: int, b: int| 0 <= a < b < self.entries@.len() implies
                        #[trigger] self.entries@[a].0@ != #[trigger] self.entries@[b].0@ by {
                        let a2 = if a < i { a } else { a + 1 };
                        let b2 = if b < i { b } else { b + 1 };
                        assert(self.entries@[a] == before.entries@[a2]);
                        assert(self.entries@[b] == before.entries@[b2]);
                        assert(before.entries@[a2].0@ != before.entries@[b2].0@);
                    }
                    assert forall|q: K::V| #[trigger] self.view().contains_key(q) <==>
                        before.view().remove(kv).contains_key(q) by {
                        if before.view().contains_key(q) && q != kv {
                            let j = before.index_of(q);
                            if j < i {
                                assert(self.entries@[j].0@ == q);
                            } else {
                                assert(j != i);
                                assert(self.entries@[j - 1].0@ == q);
                            }
                        }
                        if self.view().contains_key(q) {
                            let j = self.index_of(q);
                            let j2 = if j < i { j } else { j + 1 };
                            assert(self.entries@[j] == before.entries@[j2]);
                            assert(before.entries@[j2].0@ == q);
                            if q == kv {
                                before.lemma_index(j2);
                            }
                        }
                    }
                    assert forall|q: K::V| #[trigger] self.view().contains_key(q) implies
                        self.view()[q] == before.view().remove(kv)[q] by {
                        let j = self.index_of(q);
                        self.lemma_index(j);
                        let j2 = if j < i { j } else { j + 1 };
                        assert(self.entries@[j] == before.entries@[j2]);
                        before.lemma_index(j2);
                    }
                    assert(self.view() =~= before.view().remove(kv));
                }
                Some(prev)
            },
            None => {
                proof {
                    assert(self.view() =~= self.view().remove(k@));
                }
                None
            },
        }
    }

    proof fn lemma_len(&self)
        requires
            self.wf(),
        ensures
            self.view().dom().finite(),
            self.view().len() == self.entries@.len(),
    {
        let keys = self.entries@.map_values(|e: (K, V)| e.0@);
        assert(keys.no_duplicates()) by {
            assert forall|a: int, b: int| 0 <= a < keys.len() && 0 <= b < keys.len() && a != b
                implies keys[a] != keys[b] by {
                if a < b {
                    assert(self.entries@[a].0@ != self.entries@[b].0@);
                } else {
                    assert(self.entries@[b].0@ != self.entries@[a].0@);
                }
            }
        }
        keys.unique_seq_to_set();
        assert forall|q: K::V| #[trigger] self.view().dom().contains(q) <==> keys.to_set().contains(q) by {
            if self.view().dom().contains(q) {
                let j = self.index_of(q);
                assert(keys[j] == q);
            }
            if keys.to_set().contains(q) {
                let j = choose|j: int| 0 <= j < keys.len() && keys[j] == q;
                assert(self.entries@[j].0@ == q);
            }
        }
        assert(self.view().dom() =~= keys.to_set());
        vstd::seq_lib::seq_to_set_is_finite(keys);
    }
}

} // verus!
