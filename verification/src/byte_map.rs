//! A finite map keyed by byte strings.

use vstd::prelude::*;
use crate::primitives::bytes_eq;

verus! {

/// A finite map from byte strings to values, kept as a list of entries whose
/// keys are pairwise distinct.
pub struct ByteMap<T> {
    entries: Vec<(Vec<u8>, T)>,
}

impl<T> ByteMap<T> {
    spec fn key_at(&self, i: int) -> Seq<u8> {
        self.entries@[i].0@
    }

    spec fn holds(&self, k: Seq<u8>) -> bool {
        exists|i: int| 0 <= i < self.entries@.len() && #[trigger] self.key_at(i) == k
    }

    spec fn slot(&self, k: Seq<u8>) -> int {
        choose|i: int| 0 <= i < self.entries@.len() && #[trigger] self.key_at(i) == k
    }

    /// The keys of the entries are pairwise distinct.
    pub closed spec fn wf(&self) -> bool {
        forall|i: int, j: int|
            0 <= i < self.entries@.len() && 0 <= j < self.entries@.len() && i != j
                ==> #[trigger] self.key_at(i) != #[trigger] self.key_at(j)
    }

    proof fn lemma_slot(&self, i: int)
        requires
            self.wf(),
            0 <= i < self.entries@.len(),
        ensures
            self@.dom().contains(self.key_at(i)),
            self@[self.key_at(i)] == self.entries@[i].1,
    {
        assert(self.holds(self.key_at(i)));
        let j = self.slot(self.key_at(i));
        assert(self.key_at(j) == self.key_at(i));
    }

    /// The empty map.
    pub fn new() -> (m: Self)
        ensures
            m.wf(),
            m@ == Map::<Seq<u8>, T>::empty(),
    {
        let m = ByteMap { entries: Vec::new() };
        assert(m@ =~= Map::<Seq<u8>, T>::empty());
        m
    }

    fn find(&self, k: &Vec<u8>) -> (r: Option<usize>)
        requires
            self.wf(),
        ensures
            match r {
                Some(i) => i < self.entries@.len() && self.key_at(i as int) == k@,
                None => !self@.dom().contains(k@),
            },
    {
        let mut i: usize = 0;
        while i < self.entries.len()
            invariant
                i <= self.entries@.len(),
                forall|j: int| 0 <= j < i ==> #[trigger] self.key_at(j) != k@,
            decreases self.entries@.len() - i,
        {
            if bytes_eq(&self.entries[i].0, k) {
                return Some(i);
            }
            i = i + 1;
        }
        None
    }

    /// Whether `k` has a value.
    pub fn contains_key(&self, k: &Vec<u8>) -> (r: bool)
        requires
            self.wf(),
        ensures
            r == self@.dom().contains(k@),
    {
        match self.find(k) {
            Some(i) => {
                proof {
                    self.lemma_slot(i as int);
                }
                true
            },
            None => false,
        }
    }

    /// The value of `k`, if it has one.
    pub fn get(&self, k: &Vec<u8>) -> (r: Option<&T>)
        requires
            self.wf(),
        ensures
            match r {
                Some(v) => self@.dom().contains(k@) && *v == self@[k@],
                None => !self@.dom().contains(k@),
            },
    {
        match self.find(k) {
            Some(i) => {
                proof {
                    self.lemma_slot(i as int);
                }
                Some(&self.entries[i].1)
            },
            None => None,
        }
    }

    /// Gives `k` the value `v`, in place of the value it had.
    pub fn insert(&mut self, k: Vec<u8>, v: T)
        requires
            old(self).wf(),
        ensures
            final(self).wf(),
            final(self)@ == old(self)@.insert(k@, v),
    {
        let ghost pre = *self;
        let ghost key = k@;
        match self.find(&k) {
            Some(i) => {
                self.entries.set(i, (k, v));
                assert(self.wf()) by {
                    assert forall|a: int, b: int|
                        0 <= a < self.entries@.len() && 0 <= b < self.entries@.len() && a != b
                            implies #[trigger] self.key_at(a) != #[trigger] self.key_at(b) by {
                        assert(self.key_at(a) == pre.key_at(a));
                        assert(self.key_at(b) == pre.key_at(b));
                    }
                }
                assert forall|q: Seq<u8>| #[trigger] self@.dom().contains(q) <==> pre@.insert(key, v).dom().contains(q) by {
                    if pre@.dom().contains(q) {
                        assert(pre.holds(q));
                        let j = pre.slot(q);
                        assert(self.key_at(j) == pre.key_at(j));
                        assert(self.holds(q));
                    }
                    if self@.dom().contains(q) {
                        assert(self.holds(q));
                        let j = self.slot(q);
                        assert(self.key_at(j) == pre.key_at(j));
                        assert(pre.holds(q));
                    }
                    if q == key {
                        self.lemma_slot(i as int);
                    }
                }
                assert forall|q: Seq<u8>| #[trigger] self@.dom().contains(q) implies self@[q] == pre@.insert(key, v)[q] by {
                    let j = self.slot(q);
                    assert(self.holds(q));
                    self.lemma_slot(j);
                    if j != i {
                        assert(pre.key_at(j) == self.key_at(j));
                        pre.lemma_slot(j);
                    }
                }
                assert(self@ =~= pre@.insert(key, v));
            },
            None => {
                self.entries.push((k, v));
                let ghost n: int = self.entries@.len() - 1;
                assert(self.wf()) by {
                    assert forall|a: int, b: int|
                        0 <= a < self.entries@.len() && 0 <= b < self.entries@.len() && a != b
                            implies #[trigger] self.key_at(a) != #[trigger] self.key_at(b) by {
                        if a < n {
                            assert(self.key_at(a) == pre.key_at(a));
                            pre.lemma_slot(a);
                        }
                        if b < n {
                            assert(self.key_at(b) == pre.key_at(b));
                            pre.lemma_slot(b);
                        }
                    }
                }
                assert forall|q: Seq<u8>| #[trigger] self@.dom().contains(q) <==> pre@.insert(key, v).dom().contains(q) by {
                    if pre@.dom().contains(q) {
                        assert(pre.holds(q));
                        let j = pre.slot(q);
                        assert(self.key_at(j) == pre.key_at(j));
                        assert(self.holds(q));
                    }
                    if self@.dom().contains(q) && q != key {
                        assert(self.holds(q));
                        let j = self.slot(q);
                        assert(j != n);
                        assert(self.key_at(j) == pre.key_at(j));
                        assert(pre.holds(q));
                    }
                    if q == key {
                        self.lemma_slot(n);
                    }
                }
                assert forall|q: Seq<u8>| #[trigger] self@.dom().contains(q) implies self@[q] == pre@.insert(key, v)[q] by {
                    let j = self.slot(q);
                    assert(self.holds(q));
                    self.lemma_slot(j);
                    if j != n {
                        assert(pre.key_at(j) == self.key_at(j));
                        pre.lemma_slot(j);
                    }
                }
                assert(self@ =~= pre@.insert(key, v));
            },
        }
    }

    /// Takes the value of `k` out of the map, if it has one.
    pub fn remove(&mut self, k: &Vec<u8>) -> (r: Option<T>)
        requires
            old(self).wf(),
        ensures
            final(self).wf(),
            final(self)@ == old(self)@.remove(k@),
            match r {
                Some(v) => old(self)@.dom().contains(k@) && v == old(self)@[k@],
                None => !old(self)@.dom().contains(k@),
            },
    {
        let ghost pre = *self;
        let ghost key = k@;
        match self.find(k) {
            Some(i) => {
                proof {
                    pre.lemma_slot(i as int);
                }
                let (_, v) = self.entries.remove(i);
                assert(forall|a: int| 0 <= a < i ==> self.key_at(a) == #[trigger] pre.key_at(a));
                assert(forall|a: int| i <= a < self.entries@.len() ==> self.key_at(a) == #[trigger] pre.key_at(a + 1));
                assert(self.wf()) by {
                    assert forall|a: int, b: int|
                        0 <= a < self.entries@.len() && 0 <= b < self.entries@.len() && a != b
                            implies #[trigger] self.key_at(a) != #[trigger] self.key_at(b) by {
                        let pa = if a < i { a } else { a + 1 };
                        let pb = if b < i { b } else { b + 1 };
                        assert(self.key_at(a) == pre.key_at(pa));
                        assert(self.key_at(b) == pre.key_at(pb));
                    }
                }
                assert forall|q: Seq<u8>| #[trigger] self@.dom().contains(q) <==> pre@.remove(key).dom().contains(q) by {
                    if pre@.dom().contains(q) && q != key {
                        assert(pre.holds(q));
                        let j = pre.slot(q);
                        assert(j != i);
                        let nj = if j < i { j } else { j - 1 };
                        assert(self.key_at(nj) == pre.key_at(j));
                        assert(self.holds(q));
                    }
                    if self@.dom().contains(q) {
                        assert(self.holds(q));
                        let j = self.slot(q);
                        let pj = if j < i { j } else { j + 1 };
                        assert(self.key_at(j) == pre.key_at(pj));
                        assert(pre.holds(q));
                        pre.lemma_slot(pj);
                        assert(q != key);
                    }
                }
                assert forall|q: Seq<u8>| #[trigger] self@.dom().contains(q) implies self@[q] == pre@.remove(key)[q] by {
                    assert(self.holds(q));
                    let j = self.slot(q);
                    self.lemma_slot(j);
                    let pj = if j < i { j } else { j + 1 };
                    assert(self.key_at(j) == pre.key_at(pj));
                    pre.lemma_slot(pj);
                }
                assert(self@ =~= pre@.remove(key));
                Some(v)
            },
            None => {
                assert(self@ =~= pre@.remove(key));
                None
            },
        }
    }
}

impl<T> View for ByteMap<T> {
    type V = Map<Seq<u8>, T>;

    closed spec fn view(&self) -> Map<Seq<u8>, T> {
        Map::new(|k: Seq<u8>| self.holds(k), |k: Seq<u8>| self.entries@[self.slot(k)].1)
    }
}

} // verus!
