//! The header mapping of a post: `key -> value` pairs kept in the order the
//! header declared them, with unique keys and last-write-wins updates.

use vstd::prelude::*;

verus! {

/// An ordered mapping from header key to header value.
pub struct Metadata {
    pub entries: Vec<(String, String)>,
}

impl Metadata {
    /// Keys are pairwise distinct.
    pub open spec fn wf(self) -> bool {
        forall|i: int, j: int|
            0 <= i < j < self.entries@.len() ==> self.entries@[i].0@ != self.entries@[j].0@
    }

    /// The mapping the entries denote.
    pub open spec fn model(self) -> Map<Seq<char>, Seq<char>> {
        Map::new(
            |k: Seq<char>|
                exists|i: int| 0 <= i < self.entries@.len() && self.entries@[i].0@ == k,
            |k: Seq<char>|
                self.entries@[choose|i: int|
                    0 <= i < self.entries@.len() && self.entries@[i].0@ == k].1@,
        )
    }

    /// An entry at `i` with key `k` settles membership and value of `k`.
    proof fn lemma_entry_value(self, k: Seq<char>, i: int)
        requires
            self.wf(),
            0 <= i < self.entries@.len(),
            self.entries@[i].0@ == k,
        ensures
            self.model().contains_key(k),
            self.model()[k] == self.entries@[i].1@,
    {
        assert(exists|j: int| 0 <= j < self.entries@.len() && self.entries@[j].0@ == k);
        let c = choose|j: int| 0 <= j < self.entries@.len() && self.entries@[j].0@ == k;
        if c != i {
            assert(self.entries@[c].0@ != self.entries@[i].0@);
        }
    }

    /// An empty mapping.
    pub fn new() -> (m: Metadata)
        ensures
            m.wf(),
            m.model() == Map::<Seq<char>, Seq<char>>::empty(),
            m.entries@.len() == 0,
    {
        let m = Metadata { entries: Vec::new() };
        proof {
            assert(m.model() =~= Map::<Seq<char>, Seq<char>>::empty());
        }
        m
    }

    /// The value stored under `k`, if any.
    pub fn get(&self, k: &str) -> (r: Option<String>)
        requires
            self.wf(),
        ensures
            match r {
                Some(v) => self.model().contains_key(k@) && v@ == self.model()[k@],
                None => !self.model().contains_key(k@),
            },
    {
        let ks = k.to_owned();
        let n = self.entries.len();
        let mut i: usize = 0;
        while i < n
            invariant
                i <= n,
                n == self.entries@.len(),
                self.wf(),
                ks@ == k@,
                forall|j: int| 0 <= j < i ==> self.entries@[j].0@ != k@,
            decreases n - i,
        {
            if self.entries[i].0 == ks {
                proof {
                    self.lemma_entry_value(k@, i as int);
                }
                return Some(self.entries[i].1.clone());
            }
            i += 1;
        }
        None
    }

    /// Stores `v` under `k`: a fresh key is appended, an existing key keeps
    /// its place and gets the new value.
    pub fn insert(&mut self, k: String, v: String)
        requires
            old(self).wf(),
        ensures
            final(self).wf(),
            final(self).model() == old(self).model().insert(k@, v@),
            (exists|i: int|
                0 <= i < old(self).entries@.len() && old(self).entries@[i].0@ == k@
                    && final(self).entries@ == old(self).entries@.update(i, (k, v))) || ((forall|
                i: int,
            |
                0 <= i < old(self).entries@.len() ==> old(self).entries@[i].0@ != k@)
                && final(self).entries@ == old(self).entries@.push((k, v))),
    {
        let ghost kv = k@;
        let n = self.entries.len();
        let mut i: usize = 0;
        while i < n
            invariant
                i <= n,
                n == self.entries@.len(),
                *self == *old(self),
                self.wf(),
                k@ == kv,
                forall|j: int| 0 <= j < i ==> self.entries@[j].0@ != kv,
            decreases n - i,
        {
            if self.entries[i].0 == k {
                let ghost pre = *self;
                self.entries[i] = (k, v);
                proof {
                    assert forall|i2: int, j2: int|
                        0 <= i2 < j2 < self.entries@.len() implies self.entries@[i2].0@
                        != self.entries@[j2].0@ by {
                        assert(pre.entries@[i2].0@ != pre.entries@[j2].0@);
                    }
                    assert forall|kk: Seq<char>|
                        #[trigger] self.model().dom().contains(kk) == pre.model().insert(
                            kv,
                            v@,
                        ).dom().contains(kk) by {
                        if kk == kv {
                        } else {
                            assert forall|j: int| 0 <= j < self.entries@.len() implies (
                            self.entries@[j].0@ == kk) == (pre.entries@[j].0@ == kk) by {}
                        }
                    }
                    assert forall|kk: Seq<char>| self.model().dom().contains(kk) implies
                        #[trigger] self.model()[kk] == pre.model().insert(kv, v@)[kk] by {
                        let c = choose|j: int|
                            0 <= j < self.entries@.len() && self.entries@[j].0@ == kk;
                        if kk == kv {
                            self.lemma_entry_value(kv, i as int);
                        } else {
                            assert(self.entries@[c].0@ == kk);
                            self.lemma_entry_value(kk, c);
                            pre.lemma_entry_value(kk, c);
                        }
                    }
                    assert(self.model() =~= pre.model().insert(kv, v@));
                }
                return ;
            }
            i += 1;
        }
        let ghost pre = *self;
        self.entries.push((k, v));
        proof {
            assert forall|i2: int, j2: int|
                0 <= i2 < j2 < self.entries@.len() implies self.entries@[i2].0@
                != self.entries@[j2].0@ by {
                if j2 < pre.entries@.len() {
                    assert(pre.entries@[i2].0@ != pre.entries@[j2].0@);
                }
            }
            let last = pre.entries@.len() as int;
            assert forall|kk: Seq<char>|
                #[trigger] self.model().dom().contains(kk) == pre.model().insert(
                    kv,
                    v@,
                ).dom().contains(kk) by {
                if kk == kv {
                    assert(self.entries@[last].0@ == kv);
                } else {
                    assert forall|j: int| 0 <= j < pre.entries@.len() implies (self.entries@[j].0@
                        == kk) == (pre.entries@[j].0@ == kk) by {}
                }
            }
            assert forall|kk: Seq<char>| self.model().dom().contains(kk) implies
                #[trigger] self.model()[kk] == pre.model().insert(kv, v@)[kk] by {
                let c = choose|j: int| 0 <= j < self.entries@.len() && self.entries@[j].0@ == kk;
                if kk == kv {
                    self.lemma_entry_value(kv, last);
                } else {
                    assert(self.entries@[c].0@ == kk);
                    assert(c != last);
                    self.lemma_entry_value(kk, c);
                    pre.lemma_entry_value(kk, c);
                }
            }
            assert(self.model() =~= pre.model().insert(kv, v@));
        }
    }
}

} // verus!
