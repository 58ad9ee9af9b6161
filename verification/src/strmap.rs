//! A small map from string keys to values, backed by a vector of pairs
//! with pairwise-distinct keys.  In specifications it is viewed as a
//! `Map<Seq<char>, V>`.  The page registry, the frame cache and the
//! viewport cache are all built on it.

use vstd::prelude::*;

verus! {

/// True when the keys of `s` are pairwise distinct.
pub open spec fn distinct_keys<V>(s: Seq<(String, V)>) -> bool {
    forall|i: int, j: int| 0 <= i < j < s.len() ==> s[i].0@ != s[j].0@
}

/// True when some pair of `s` carries the key `k`.
pub open spec fn has_key<V>(s: Seq<(String, V)>, k: Seq<char>) -> bool {
    exists|i: int| 0 <= i < s.len() && s[i].0@ == k
}

/// The index of the pair of `s` carrying the key `k` (meaningful when
/// `has_key(s, k)` and the keys are distinct).
pub open spec fn key_index<V>(s: Seq<(String, V)>, k: Seq<char>) -> int {
    choose|i: int| 0 <= i < s.len() && s[i].0@ == k
}

/// An association list with unique string keys.
pub struct StrMap<V> {
    entries: Vec<(String, V)>,
}

impl<V> View for StrMap<V> {
    type V = Map<Seq<char>, V>;

    closed spec fn view(&self) -> Map<Seq<char>, V> {
        Map::new(
            |k: Seq<char>| has_key(self.entries@, k),
            |k: Seq<char>| self.entries@[key_index(self.entries@, k)].1,
        )
    }
}

impl<V> StrMap<V> {
    /// Well-formed: no key occurs twice.
    pub closed spec fn wf(&self) -> bool {
        distinct_keys(self.entries@)
    }

    /// The pair at index `i` is what the map view returns for its key.
    proof fn lemma_view_at(&self, i: int)
        requires
            self.wf(),
            0 <= i < self.entries@.len(),
        ensures
            self@.contains_key(self.entries@[i].0@),
            self@[self.entries@[i].0@] == self.entries@[i].1,
    {
        let k = self.entries@[i].0@;
        assert(has_key(self.entries@, k));
        let j = key_index(self.entries@, k);
        assert(0 <= j < self.entries@.len() && self.entries@[j].0@ == k);
        if i < j {
            assert(self.entries@[i].0@ != self.entries@[j].0@);
        } else if j < i {
            assert(self.entries@[j].0@ != self.entries@[i].0@);
        }
    }

    /// A key carried by no pair is absent from the map view.
    proof fn lemma_view_absent(&self, k: Seq<char>)
        requires
            !has_key(self.entries@, k),
        ensures
            !self@.contains_key(k),
    {
    }

    /// The empty map.
    pub fn new() -> (m: StrMap<V>)
        ensures
            m.wf(),
            m@ == Map::<Seq<char>, V>::empty(),
    {
        let m = StrMap { entries: Vec::new() };
        proof {
            assert(m@ =~= Map::<Seq<char>, V>::empty());
        }
        m
    }

    /// The index of the pair carrying `key`, if there is one.
    fn find(&self, key: &String) -> (r: Option<usize>)
        ensures
            match r {
                Some(i) => i < self.entries@.len() && self.entries@[i as int].0@ == key@,
                None => !has_key(self.entries@, key@),
            },
    {
        let n = self.entries.len();
        let mut i: usize = 0;
        while i < n
            invariant
                n == self.entries@.len(),
                i <= n,
                forall|j: int| 0 <= j < i ==> self.entries@[j].0@ != key@,
            decreases n - i,
        {
            if self.entries[i].0.eq(key) {
                return Some(i);
            }
            i = i + 1;
        }
        None
    }

    /// Whether `key` is present.
    pub fn contains_key(&self, key: &String) -> (r: bool)
        requires
            self.wf(),
        ensures
            r == self@.contains_key(key@),
    {
        match self.find(key) {
            Some(i) => {
                proof {
                    self.lemma_view_at(i as int);
                }
                true
            },
            None => {
                proof {
                    self.lemma_view_absent(key@);
                }
                false
            },
        }
    }

    /// The value stored under `key`, if any.
    pub fn get(&self, key: &String) -> (r: Option<&V>)
        requires
            self.wf(),
        ensures
            match r {
                Some(v) => self@.contains_key(key@) && *v == self@[key@],
                None => !self@.contains_key(key@),
            },
    {
        match self.find(key) {
            Some(i) => {
                proof {
                    self.lemma_view_at(i as int);
                }
                Some(&self.entries[i].1)
            },
            None => {
                proof {
                    self.lemma_view_absent(key@);
                }
                None
            },
        }
    }

    /// Store `value` under `key`, replacing any previous value.
    pub fn insert(&mut self, key: String, value: V)
        requires
            old(self).wf(),
        ensures
            final(self).wf(),
            final(self)@ == old(self)@.insert(key@, value),
    {
        let ghost k = key@;
        match self.find(&key) {
            Some(i) => {
                let ghost s0 = self.entries@;
                self.entries[i] = (key, value);
                proof {
                    let s1 = self.entries@;
                    assert forall|p: int| 0 <= p < s1.len() implies s1[p].0@ == s0[p].0@ by {
                        if p == i {
                            assert(s0[p].0@ == k);
                        }
                    }
                    assert(self.wf());
                    assert forall|q: Seq<char>| #[trigger] self@.contains_key(q)
                        == old(self)@.insert(k, value).contains_key(q) by {
                        if has_key(s1, q) {
                            let w = choose|w: int| 0 <= w < s1.len() && s1[w].0@ == q;
                            assert(s0[w].0@ == q);
                            assert(has_key(s0, q));
                        }
                        if has_key(s0, q) {
                            let w = choose|w: int| 0 <= w < s0.len() && s0[w].0@ == q;
                            assert(s1[w].0@ == q);
                            assert(has_key(s1, q));
                        }
                    }
                    assert forall|q: Seq<char>| self@.contains_key(q) implies #[trigger] self@[q]
                        == old(self)@.insert(k, value)[q] by {
                        let w = key_index(s1, q);
                        assert(0 <= w < s1.len() && s1[w].0@ == q);
                        self.lemma_view_at(w);
                        if q == k {
                            assert(s1[i as int].0@ == q);
                            if w != i {
                                assert(s1[w].0@ != s1[i as int].0@ || w == i);
                                assert(false);
                            }
                            assert(self@[q] == value);
                        } else {
                            assert(w != i);
                            assert(s0[w] == s1[w]);
                            old(self).lemma_view_at(w);
                        }
                    }
                    assert(self@ =~= old(self)@.insert(k, value));
                }
            },
            None => {
                let ghost s0 = self.entries@;
                self.entries.push((key, value));
                proof {
                    let s1 = self.entries@;
                    assert(s1 == s0.push((key, value)));
                    assert forall|p: int, q: int| 0 <= p < q < s1.len() implies s1[p].0@
                        != s1[q].0@ by {
                        if q == s1.len() - 1 {
                            assert(s1[q].0@ == k);
                            assert(s1[p] == s0[p]);
                            assert(!has_key(s0, k));
                        }
                    }
                    assert(self.wf());
                    assert forall|q: Seq<char>| #[trigger] self@.contains_key(q)
                        == old(self)@.insert(k, value).contains_key(q) by {
                        if q == k {
                            assert(s1[s1.len() - 1].0@ == k);
                            assert(has_key(s1, k));
                        } else {
                            if has_key(s1, q) {
                                let w = choose|w: int| 0 <= w < s1.len() && s1[w].0@ == q;
                                assert(w < s0.len());
                                assert(has_key(s0, q));
                            }
                            if has_key(s0, q) {
                                let w = choose|w: int| 0 <= w < s0.len() && s0[w].0@ == q;
                                assert(s1[w].0@ == q);
                                assert(has_key(s1, q));
                            }
                        }
                    }
                    assert forall|q: Seq<char>| self@.contains_key(q) implies #[trigger] self@[q]
                        == old(self)@.insert(k, value)[q] by {
                        let w = key_index(s1, q);
                        assert(0 <= w < s1.len() && s1[w].0@ == q);
                        self.lemma_view_at(w);
                        if q == k {
                            if w != s1.len() - 1 {
                                assert(s0[w].0@ == k);
                                assert(has_key(s0, k));
                                assert(false);
                            }
                            assert(self@[q] == value);
                        } else {
                            assert(w != s1.len() - 1);
                            assert(s0[w] == s1[w]);
                            old(self).lemma_view_at(w);
                        }
                    }
                    assert(self@ =~= old(self)@.insert(k, value));
                }
            },
        }
    }

    /// Drop the entry stored under `key`, if any.
    pub fn remove(&mut self, key: &String)
        requires
            old(self).wf(),
        ensures
            final(self).wf(),
            final(self)@ == old(self)@.remove(key@),
    {
        let ghost k = key@;
        match self.find(key) {
            Some(i) => {
                let ghost s0 = self.entries@;
                let _ = self.entries.remove(i);
                proof {
                    let s1 = self.entries@;
                    assert(s1 == s0.remove(i as int));
                    assert forall|p: int, q: int| 0 <= p < q < s1.len() implies s1[p].0@
                        != s1[q].0@ by {
                        let p0 = if p < i { p } else { p + 1 };
                        let q0 = if q < i { q } else { q + 1 };
                        assert(s1[p] == s0[p0]);
                        assert(s1[q] == s0[q0]);
                        assert(s0[p0].0@ != s0[q0].0@);
                    }
                    assert(self.wf());
                    assert forall|q: Seq<char>| #[trigger] self@.contains_key(q) == old(
                        self,
                    )@.remove(k).contains_key(q) by {
                        if q == k {
                            if has_key(s1, k) {
                                let w = choose|w: int| 0 <= w < s1.len() && s1[w].0@ == k;
                                let w0 = if w < i { w } else { w + 1 };
                                assert(s1[w] == s0[w0]);
                                assert(w0 != i && s0[w0].0@ == k && s0[i as int].0@ == k);
                                if w0 < i {
                                    assert(s0[w0].0@ != s0[i as int].0@);
                                } else {
                                    assert(s0[i as int].0@ != s0[w0].0@);
                                }
                                assert(false);
                            }
                        } else {
                            if has_key(s1, q) {
                                let w = choose|w: int| 0 <= w < s1.len() && s1[w].0@ == q;
                                let w0 = if w < i { w } else { w + 1 };
                                assert(s1[w] == s0[w0]);
                                assert(has_key(s0, q));
                            }
                            if has_key(s0, q) {
                                let w0 = choose|w0: int| 0 <= w0 < s0.len() && s0[w0].0@ == q;
                                assert(w0 != i);
                                let w = if w0 < i { w0 } else { w0 - 1 };
                                assert(s1[w] == s0[w0]);
                                assert(has_key(s1, q));
                            }
                        }
                    }
                    assert forall|q: Seq<char>| self@.contains_key(q) implies #[trigger] self@[q]
                        == old(self)@.remove(k)[q] by {
                        let w = key_index(s1, q);
                        assert(0 <= w < s1.len() && s1[w].0@ == q);
                        self.lemma_view_at(w);
                        let w0 = if w < i { w } else { w + 1 };
                        assert(s1[w] == s0[w0]);
                        old(self).lemma_view_at(w0);
                    }
                    assert(self@ =~= old(self)@.remove(k));
                }
            },
            None => {
                proof {
                    self.lemma_view_absent(k);
                    assert(self@ =~= self@.remove(k));
                }
            },
        }
    }

    /// The keys, in storage order.
    pub fn keys(&self) -> (r: Vec<String>)
        requires
            self.wf(),
        ensures
            forall|i: int| 0 <= i < r@.len() ==> self@.contains_key(#[trigger] r@[i]@),
            forall|k: Seq<char>| self@.contains_key(k) ==> exists|i: int|
                0 <= i < r@.len() && #[trigger] r@[i]@ == k,
            forall|i: int, j: int| 0 <= i < j < r@.len() ==> r@[i]@ != r@[j]@,
    {
        let n = self.entries.len();
        let mut r: Vec<String> = Vec::new();
        let mut i: usize = 0;
        while i < n
            invariant
                self.wf(),
                n == self.entries@.len(),
                i <= n,
                r@.len() == i,
                forall|j: int| 0 <= j < i ==> r@[j]@ == self.entries@[j].0@,
            decreases n - i,
        {
            r.push(self.entries[i].0.clone());
            i = i + 1;
        }
        proof {
            assert forall|i: int| 0 <= i < r@.len() implies self@.contains_key(
                #[trigger] r@[i]@,
            ) by {
                self.lemma_view_at(i);
            }
            assert forall|k: Seq<char>| self@.contains_key(k) implies exists|i: int|
                0 <= i < r@.len() && #[trigger] r@[i]@ == k by {
                let w = choose|w: int| 0 <= w < self.entries@.len() && self.entries@[w].0@ == k;
                assert(r@[w]@ == k);
            }
        }
        r
    }
}

} // verus!
