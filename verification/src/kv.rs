//! A verified association map, the in-memory model of one region of the
//! external key-value store. Keys are compared by an executable equality
//! whose meaning is view equality, so the map is usable with integer keys,
//! pairs, and byte-string identifiers alike.

use vstd::prelude::*;

use crate::base::bytes_eq;

verus! {

/// A key usable in [`KvMap`]: executable equality agrees with view equality.
pub trait MapKey: View + Sized {
    fn key_eq(&self, other: &Self) -> (r: bool)
        ensures
            r == (self@ == other@),
    ;
}

impl MapKey for u64 {
    fn key_eq(&self, other: &Self) -> (r: bool) {
        *self == *other
    }
}

impl MapKey for u32 {
    fn key_eq(&self, other: &Self) -> (r: bool) {
        *self == *other
    }
}

impl MapKey for (u64, u64) {
    fn key_eq(&self, other: &Self) -> (r: bool) {
        self.0 == other.0 && self.1 == other.1
    }
}

impl MapKey for (u32, u64) {
    fn key_eq(&self, other: &Self) -> (r: bool) {
        self.0 == other.0 && self.1 == other.1
    }
}

impl MapKey for Vec<u8> {
    fn key_eq(&self, other: &Self) -> (r: bool) {
        bytes_eq(self, other)
    }
}

impl MapKey for (Vec<u8>, u64) {
    fn key_eq(&self, other: &Self) -> (r: bool) {
        bytes_eq(&self.0, &other.0) && self.1 == other.1
    }
}

/// An association map held as a vector of entries with pairwise distinct
/// key views. Lookups are by key view; a missing key yields `None`.
pub struct KvMap<K, V> {
    pub entries: Vec<(K, V)>,
}

impl<K: MapKey, V> KvMap<K, V> {
    /// The underlying entry sequence (for arguments about aggregates,
    /// such as the sum of all stored balances).
    pub open spec fn seq(self) -> Seq<(K, V)> {
        self.entries@
    }

    /// Key views are pairwise distinct.
    pub open spec fn wf(self) -> bool {
        forall|i: int, j: int|
            0 <= i < j < self.entries@.len() ==> self.entries@[i].0@ != self.entries@[j].0@
    }

    /// Whether some entry has key view `k`.
    pub open spec fn has(self, k: <K as View>::V) -> bool {
        exists|i: int| 0 <= i < self.entries@.len() && self.entries@[i].0@ == k
    }

    /// The index of the entry with key view `k` (meaningful when `has(k)`).
    pub open spec fn index_of(self, k: <K as View>::V) -> int {
        choose|i: int| 0 <= i < self.entries@.len() && self.entries@[i].0@ == k
    }

    /// The value stored under key view `k`, if any.
    pub open spec fn val_of(self, k: <K as View>::V) -> Option<V> {
        if self.has(k) {
            Some(self.entries@[self.index_of(k)].1)
        } else {
            None
        }
    }

    /// In a well-formed map, an entry's index determines the lookup result.
    pub proof fn lemma_key_at(self, i: int, k: <K as View>::V)
        requires
            self.wf(),
            0 <= i < self.seq().len(),
            self.seq()[i].0@ == k,
        ensures
            self.has(k),
            self.index_of(k) == i,
            self.val_of(k) == Some(self.seq()[i].1),
    {
        assert(self.has(k));
        let j = self.index_of(k);
        assert(0 <= j < self.entries@.len() && self.entries@[j].0@ == k);
        if i < j {
            assert(self.entries@[i].0@ != self.entries@[j].0@);
        }
        if j < i {
            assert(self.entries@[j].0@ != self.entries@[i].0@);
        }
    }

    /// In a well-formed map, a present key's index is in range and holds it.
    pub proof fn lemma_index(self, k: <K as View>::V)
        requires
            self.wf(),
            self.has(k),
        ensures
            0 <= self.index_of(k) < self.seq().len(),
            self.seq()[self.index_of(k)].0@ == k,
            self.val_of(k) == Some(self.seq()[self.index_of(k)].1),
    {
        let j = self.index_of(k);
        assert(0 <= j < self.entries@.len() && self.entries@[j].0@ == k);
    }

    /// An empty map.
    pub fn new() -> (r: Self)
        ensures
            r.wf(),
            r.seq() == Seq::<(K, V)>::empty(),
            forall|k: <K as View>::V| !r.has(k) && r.val_of(k) is None,
    {
        let r = KvMap { entries: Vec::new() };
        proof {
            assert(r.entries@ =~= Seq::<(K, V)>::empty());
        }
        r
    }

    /// Index of the entry holding `k`, if any; no well-formedness needed.
    fn find(&self, k: &K) -> (r: Option<usize>)
        ensures
            (match r {
                Some(i) => i < self.seq().len() && self.seq()[i as int].0@ == k@,
                None => forall|j: int| 0 <= j < self.seq().len() ==> self.seq()[j].0@ != k@,
            }),
    {
        let mut i: usize = 0;
        while i < self.entries.len()
            invariant
                i <= self.entries@.len(),
                forall|j: int| 0 <= j < i ==> self.entries@[j].0@ != k@,
            decreases self.entries@.len() - i,
        {
            if self.entries[i].0.key_eq(k) {
                return Some(i);
            }
            i += 1;
        }
        None
    }

    /// Whether `k` is present.
    pub fn contains(&self, k: &K) -> (r: bool)
        requires
            self.wf(),
        ensures
            r == self.has(k@),
    {
        match self.find(k) {
            Some(i) => {
                proof {
                    self.lemma_key_at(i as int, k@);
                }
                true
            }
            None => {
                proof {
                    if self.has(k@) {
                        let j = choose|j: int|
                            0 <= j < self.entries@.len() && self.entries@[j].0@ == k@;
                        assert(self.seq()[j].0@ != k@);
                    }
                }
                false
            }
        }
    }

    /// A reference to the value under `k`, if present.
    pub fn get(&self, k: &K) -> (r: Option<&V>)
        requires
            self.wf(),
        ensures
            (match r {
                Some(v) => self.has(k@) && self.val_of(k@) == Some(*v),
                None => !self.has(k@),
            }),
    {
        match self.find(k) {
            Some(i) => {
                proof {
                    self.lemma_key_at(i as int, k@);
                }
                let pair = &self.entries[i];
                Some(&pair.1)
            }
            None => {
                proof {
                    if self.has(k@) {
                        let j = choose|j: int|
                            0 <= j < self.entries@.len() && self.entries@[j].0@ == k@;
                        assert(self.seq()[j].0@ != k@);
                    }
                }
                None
            }
        }
    }

    /// Inserts or overwrites the value under `k`. All other keys keep their
    /// bindings; the entry sequence is updated in place or extended by one.
    pub fn set(&mut self, k: K, v: V)
        requires
            old(self).wf(),
        ensures
            final(self).wf(),
            final(self).has(k@),
            final(self).val_of(k@) == Some(v),
            forall|k2: <K as View>::V|
                k2 != k@ ==> #[trigger] final(self).val_of(k2) == old(self).val_of(k2),
            forall|k2: <K as View>::V|
                k2 != k@ ==> #[trigger] final(self).has(k2) == old(self).has(k2),
            (if old(self).has(k@) {
                final(self).seq() == old(self).seq().update(old(self).index_of(k@), (k, v))
            } else {
                final(self).seq() == old(self).seq().push((k, v))
            }),
    {
        match self.find(&k) {
            Some(i) => {
                proof {
                    old(self).lemma_key_at(i as int, k@);
                }
                self.entries[i] = (k, v);
                proof {
                    assert(self.entries@ =~= old(self).entries@.update(i as int, (k, v)));
                    assert forall|a: int, b: int|
                        0 <= a < b < self.entries@.len() implies self.entries@[a].0@
                        != self.entries@[b].0@ by {
                        assert(old(self).entries@[a].0@ != old(self).entries@[b].0@);
                    }
                    self.lemma_key_at(i as int, k@);
                    assert forall|k2: <K as View>::V| k2 != k@ implies #[trigger] self.val_of(k2)
                        == old(self).val_of(k2) by {
                        Self::lemma_lookup_except(*old(self), *self, i as int, k@, k2);
                    }
                    assert forall|k2: <K as View>::V| k2 != k@ implies #[trigger] self.has(k2)
                        == old(self).has(k2) by {
                        Self::lemma_lookup_except(*old(self), *self, i as int, k@, k2);
                    }
                }
            }
            None => {
                proof {
                    if old(self).has(k@) {
                        let j = choose|j: int|
                            0 <= j < old(self).entries@.len() && old(self).entries@[j].0@ == k@;
                        assert(old(self).seq()[j].0@ != k@);
                    }
                }
                self.entries.push((k, v));
                proof {
                    let n = old(self).entries@.len() as int;
                    assert(self.entries@ =~= old(self).entries@.push((k, v)));
                    assert forall|a: int, b: int|
                        0 <= a < b < self.entries@.len() implies self.entries@[a].0@
                        != self.entries@[b].0@ by {
                        if b < n {
                            assert(old(self).entries@[a].0@ != old(self).entries@[b].0@);
                        } else {
                            assert(self.entries@[b].0@ == k@);
                            assert(self.entries@[a] == old(self).entries@[a]);
                        }
                    }
                    self.lemma_key_at(n, k@);
                    assert forall|k2: <K as View>::V| k2 != k@ implies #[trigger] self.val_of(k2)
                        == old(self).val_of(k2) by {
                        Self::lemma_lookup_except(*old(self), *self, n, k@, k2);
                    }
                    assert forall|k2: <K as View>::V| k2 != k@ implies #[trigger] self.has(k2)
                        == old(self).has(k2) by {
                        Self::lemma_lookup_except(*old(self), *self, n, k@, k2);
                    }
                }
            }
        }
    }

    /// Removes and returns the entry under `k`, if present. All other keys
    /// keep their bindings.
    pub fn remove_take(&mut self, k: &K) -> (r: Option<(K, V)>)
        requires
            old(self).wf(),
        ensures
            final(self).wf(),
            !final(self).has(k@),
            forall|k2: <K as View>::V|
                k2 != k@ ==> #[trigger] final(self).val_of(k2) == old(self).val_of(k2),
            forall|k2: <K as View>::V|
                k2 != k@ ==> #[trigger] final(self).has(k2) == old(self).has(k2),
            (match r {
                Some(kv) => {
                    &&& old(self).has(k@)
                    &&& kv.0@ == k@
                    &&& old(self).val_of(k@) == Some(kv.1)
                    &&& final(self).seq() == old(self).seq().remove(old(self).index_of(k@))
                },
                None => !old(self).has(k@) && *final(self) == *old(self),
            }),
    {
        match self.find(k) {
            Some(i) => {
                proof {
                    old(self).lemma_key_at(i as int, k@);
                }
                let kv = self.entries.remove(i);
                proof {
                    let pre = old(self).entries@;
                    pre.remove_ensures(i as int);
                    assert(self.entries@ == pre.remove(i as int));
                    assert forall|j: int| 0 <= j < self.entries@.len() implies self.entries@[j] == (
                    if j < i {
                        pre[j]
                    } else {
                        pre[j + 1]
                    }) by {}
                    assert forall|a: int, b: int|
                        0 <= a < b < self.entries@.len() implies self.entries@[a].0@
                        != self.entries@[b].0@ by {
                        let a2: int = if a < i {
                            a
                        } else {
                            a + 1
                        };
                        let b2: int = if b < i {
                            b
                        } else {
                            b + 1
                        };
                        assert(pre[a2].0@ != pre[b2].0@);
                    }
                    assert forall|j: int| 0 <= j < self.entries@.len() implies self.entries@[j].0@
                        != k@ by {
                        if j < i {
                            assert(pre[j].0@ != pre[i as int].0@);
                        } else {
                            assert(pre[i as int].0@ != pre[j + 1].0@);
                        }
                    }
                    assert(!self.has(k@));
                    assert forall|k2: <K as View>::V| k2 != k@ implies #[trigger] self.val_of(k2)
                        == old(self).val_of(k2) by {
                        Self::lemma_lookup_after_remove(*old(self), *self, i as int, k@, k2);
                    }
                    assert forall|k2: <K as View>::V| k2 != k@ implies #[trigger] self.has(k2)
                        == old(self).has(k2) by {
                        Self::lemma_lookup_after_remove(*old(self), *self, i as int, k@, k2);
                    }
                }
                Some(kv)
            }
            None => {
                proof {
                    if self.has(k@) {
                        let j = choose|j: int|
                            0 <= j < self.entries@.len() && self.entries@[j].0@ == k@;
                        assert(self.seq()[j].0@ != k@);
                    }
                }
                None
            }
        }
    }

    /// Lookups other than `k` agree between `pre` and `post` when `post`
    /// differs from `pre` only at index `i`, whose key view is `k` in both
    /// (an in-place update, or a fresh entry appended at `i == pre.len()`).
    proof fn lemma_lookup_except(pre: Self, post: Self, i: int, k: <K as View>::V, k2: <K as View>::V)
        requires
            pre.wf(),
            post.wf(),
            pre.seq().len() <= post.seq().len(),
            0 <= i < post.seq().len(),
            post.seq()[i].0@ == k,
            i < pre.seq().len() ==> pre.seq()[i].0@ == k,
            forall|j: int|
                0 <= j < post.seq().len() && j != i ==> j < pre.seq().len()
                    && #[trigger] post.seq()[j] == pre.seq()[j],
            k2 != k,
        ensures
            post.val_of(k2) == pre.val_of(k2),
            post.has(k2) == pre.has(k2),
    {
        if pre.has(k2) {
            pre.lemma_index(k2);
            let i2 = pre.index_of(k2);
            assert(i2 != i);
            assert(post.seq()[i2] == pre.seq()[i2]);
            post.lemma_key_at(i2, k2);
        } else {
            if post.has(k2) {
                post.lemma_index(k2);
                let j = post.index_of(k2);
                assert(j != i);
                assert(pre.seq()[j] == post.seq()[j]);
                assert(pre.has(k2));
            }
        }
    }

    /// Lookups other than `k` agree between `pre` and `post` when `post` is
    /// `pre` with the entry at index `i` (whose key view is `k`) removed.
    proof fn lemma_lookup_after_remove(
        pre: Self,
        post: Self,
        i: int,
        k: <K as View>::V,
        k2: <K as View>::V,
    )
        requires
            pre.wf(),
            post.wf(),
            0 <= i < pre.seq().len(),
            pre.seq()[i].0@ == k,
            post.seq() == pre.seq().remove(i),
            k2 != k,
        ensures
            post.val_of(k2) == pre.val_of(k2),
            post.has(k2) == pre.has(k2),
    {
        pre.seq().remove_ensures(i);
        if pre.has(k2) {
            pre.lemma_index(k2);
            let i2 = pre.index_of(k2);
            assert(i2 != i);
            let j2 = if i2 < i {
                i2
            } else {
                i2 - 1
            };
            assert(post.seq()[j2] == pre.seq()[i2]);
            post.lemma_key_at(j2, k2);
        } else {
            if post.has(k2) {
                post.lemma_index(k2);
                let j = post.index_of(k2);
                if j < i {
                    assert(pre.seq()[j] == post.seq()[j]);
                    assert(pre.has(k2));
                } else {
                    assert(pre.seq()[j + 1] == post.seq()[j]);
                    assert(pre.has(k2));
                }
            }
        }
    }
}

} // verus!
