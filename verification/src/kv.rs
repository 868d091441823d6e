//! A persistent map abstraction with exact `Map` semantics.
//!
//! The engine's persisted state surfaces (balances, contract infos, code
//! entries, storage namespaces) are all small key-value stores.  [`KvMap`]
//! keeps entries in a vector with pairwise-distinct keys and is specified
//! against a mathematical [`Map`] from key views to value views, independent
//! of any particular storage engine.

use vstd::prelude::*;

verus! {

/// A key type: comparable and copyable at the level of its view.
pub trait KeyLike: View + Sized {
    /// Exact equality test on views.
    fn same(&self, other: &Self) -> (r: bool)
        ensures
            r == (self@ == other@),
    ;

    /// A copy with the same view.
    fn dup_key(&self) -> (r: Self)
        ensures
            r@ == self@,
    ;
}

/// A value type that can be copied without changing its view.
pub trait Dup: View + Sized {
    /// A copy with the same view.
    fn dup(&self) -> (r: Self)
        ensures
            r@ == self@,
    ;
}

impl KeyLike for u64 {
    fn same(&self, other: &Self) -> (r: bool)
        ensures
            r == (self@ == other@),
    {
        *self == *other
    }

    fn dup_key(&self) -> (r: Self)
        ensures
            r@ == self@,
    {
        *self
    }
}

impl Dup for u64 {
    fn dup(&self) -> (r: Self)
        ensures
            r@ == self@,
    {
        *self
    }
}

/// Byte-wise copy of a byte string.
pub fn copy_bytes(v: &Vec<u8>) -> (r: Vec<u8>)
    ensures
        r@ == v@,
{
    let mut r: Vec<u8> = Vec::new();
    let mut i: usize = 0;
    while i < v.len()
        invariant
            i <= v@.len(),
            r@ == v@.subrange(0, i as int),
        decreases v@.len() - i,
    {
        r.push(v[i]);
        proof {
            assert(r@ =~= v@.subrange(0, i + 1 as int));
        }
        i += 1;
    }
    proof {
        assert(r@ =~= v@);
    }
    r
}

/// Byte-wise equality of two byte strings.
pub fn bytes_eq(a: &Vec<u8>, b: &Vec<u8>) -> (r: bool)
    ensures
        r == (a@ == b@),
{
    if a.len() != b.len() {
        proof {
            assert(a@ != b@) by {
                if a@ == b@ {
                    assert(a@.len() == b@.len());
                }
            }
        }
        return false;
    }
    let mut i: usize = 0;
    while i < a.len()
        invariant
            a@.len() == b@.len(),
            i <= a@.len(),
            forall|j: int| 0 <= j < i ==> a@[j] == b@[j],
        decreases a@.len() - i,
    {
        if a[i] != b[i] {
            proof {
                assert(a@ != b@) by {
                    if a@ == b@ {
                        assert(a@[i as int] == b@[i as int]);
                    }
                }
            }
            return false;
        }
        i += 1;
    }
    proof {
        assert(a@ =~= b@);
    }
    true
}

impl KeyLike for Vec<u8> {
    fn same(&self, other: &Self) -> (r: bool)
        ensures
            r == (self@ == other@),
    {
        bytes_eq(self, other)
    }

    fn dup_key(&self) -> (r: Self)
        ensures
            r@ == self@,
    {
        copy_bytes(self)
    }
}

impl Dup for Vec<u8> {
    fn dup(&self) -> (r: Self)
        ensures
            r@ == self@,
    {
        copy_bytes(self)
    }
}

/// One stored key-value pair.
pub struct Entry<K, V> {
    /// The key.
    pub key: K,
    /// The value.
    pub val: V,
}

/// A key-value store with pairwise-distinct keys, viewed as a `Map`.
pub struct KvMap<K: KeyLike, V: View> {
    entries: Vec<Entry<K, V>>,
}

impl<K: KeyLike, V: View> KvMap<K, V> {
    /// Keys are pairwise distinct.
    #[verifier::type_invariant]
    closed spec fn wf(self) -> bool {
        forall|i: int, j: int|
            0 <= i < j < self.entries@.len() ==> self.entries@[i].key@ != self.entries@[j].key@
    }

    /// Some entry carries key view `k`.
    closed spec fn spec_has(self, k: K::V) -> bool {
        exists|i: int| 0 <= i < self.entries@.len() && self.entries@[i].key@ == k
    }

    /// The index of the entry carrying key view `k`.
    closed spec fn spec_idx(self, k: K::V) -> int {
        choose|i: int| 0 <= i < self.entries@.len() && self.entries@[i].key@ == k
    }

    proof fn lemma_idx(self, k: K::V)
        requires
            self.wf(),
            self.spec_has(k),
        ensures
            0 <= self.spec_idx(k) < self.entries@.len(),
            self.entries@[self.spec_idx(k)].key@ == k,
            forall|i: int|
                0 <= i < self.entries@.len() && self.entries@[i].key@ == k ==> i == self.spec_idx(
                    k,
                ),
    {
        let x = self.spec_idx(k);
        assert(0 <= x < self.entries@.len() && self.entries@[x].key@ == k);
        assert forall|i: int|
            0 <= i < self.entries@.len() && self.entries@[i].key@ == k implies i == x by {
            if i < x {
                assert(self.entries@[i].key@ != self.entries@[x].key@);
            } else if x < i {
                assert(self.entries@[x].key@ != self.entries@[i].key@);
            }
        }
    }

    proof fn lemma_view_eq(a: Self, b: Self)
        requires
            a.wf(),
            b.wf(),
            a.entries@ == b.entries@,
        ensures
            a@ == b@,
    {
        assert forall|k: K::V| #[trigger] a@.contains_key(k) <==> b@.contains_key(k) by {
            if a.spec_has(k) {
                let i = choose|i: int| 0 <= i < a.entries@.len() && a.entries@[i].key@ == k;
                assert(b.entries@[i].key@ == k);
            }
            if b.spec_has(k) {
                let i = choose|i: int| 0 <= i < b.entries@.len() && b.entries@[i].key@ == k;
                assert(a.entries@[i].key@ == k);
            }
        }
        assert forall|k: K::V| a@.contains_key(k) implies #[trigger] a@[k] == b@[k] by {
            a.lemma_idx(k);
            b.lemma_idx(k);
            let i = a.spec_idx(k);
            assert(b.entries@[i].key@ == k);
            assert(b.spec_idx(k) == i);
        }
        assert(a@ =~= b@);
    }

    /// The empty store.
    pub fn new() -> (r: Self)
        ensures
            r@ == Map::<K::V, V::V>::empty(),
    {
        let r = KvMap { entries: Vec::new() };
        proof {
            assert(r@ =~= Map::<K::V, V::V>::empty());
        }
        r
    }

    /// Looks the key up.
    pub fn get(&self, k: &K) -> (r: Option<&V>)
        ensures
            match r {
                Some(v) => self@.contains_key(k@) && v@ == self@[k@],
                None => !self@.contains_key(k@),
            },
    {
        proof {
            use_type_invariant(&*self);
        }
        let n = self.entries.len();
        let mut i: usize = 0;
        while i < n
            invariant
                n == self.entries@.len(),
                i <= n,
                forall|j: int| 0 <= j < i ==> self.entries@[j].key@ != k@,
        decreases n - i,
        {
            if self.entries[i].key.same(k) {
                proof {
                    use_type_invariant(&*self);
                    assert(self.spec_has(k@));
                    self.lemma_idx(k@);
                    assert(self.spec_idx(k@) == i);
                }
                return Some(&self.entries[i].val);
            }
            i += 1;
        }
        proof {
            assert(!self.spec_has(k@));
        }
        None
    }

    /// Whether the key is present.
    pub fn contains(&self, k: &K) -> (r: bool)
        ensures
            r == self@.contains_key(k@),
    {
        match self.get(k) {
            Some(_) => true,
            Option::None => false,
        }
    }

    /// Removes the key, if present.
    pub fn remove(&mut self, k: &K)
        ensures
            final(self)@ == old(self)@.remove(k@),
    {
        proof {
            use_type_invariant(&*self);
        }
        let mut entries: Vec<Entry<K, V>> = Vec::new();
        std::mem::swap(&mut entries, &mut self.entries);
        let n = entries.len();
        let mut i: usize = 0;
        while i < n
            invariant
                n == entries@.len(),
                i <= n,
                entries@ == old(self).entries@,
                old(self).wf(),
                forall|j: int| 0 <= j < i ==> entries@[j].key@ != k@,
        decreases n - i,
        {
            if entries[i].key.same(k) {
                proof {
                    old(self).lemma_idx(k@);
                    assert(old(self).spec_idx(k@) == i);
                }
                entries.remove(i);
                proof {
                    old(self).entries@.remove_ensures(i as int);
                    assert forall|a: int, b: int|
                        0 <= a < b < entries@.len() implies entries@[a].key@ != entries@[b].key@ by {
                        let a0: int = if a < i { a } else { a + 1 };
                        let b0: int = if b < i { b } else { b + 1 };
                        assert(entries@[a] == old(self).entries@[a0]);
                        assert(entries@[b] == old(self).entries@[b0]);
                    }
                }
                self.entries = entries;
                proof {
                    use_type_invariant(&*self);
                    self.lemma_view_remove(*old(self), i as int, k@);
                }
                return;
            }
            i += 1;
        }
        std::mem::swap(&mut entries, &mut self.entries);
        proof {
            use_type_invariant(&*self);
            Self::lemma_view_eq(*self, *old(self));
            assert(!old(self).spec_has(k@));
            assert(self@ =~= old(self)@.remove(k@)) by {
                assert(!old(self)@.contains_key(k@));
            }
        }
    }

    proof fn lemma_view_remove(self, pre: Self, i: int, k: K::V)
        requires
            pre.wf(),
            self.wf(),
            0 <= i < pre.entries@.len(),
            pre.entries@[i].key@ == k,
            self.entries@ == pre.entries@.remove(i),
        ensures
            self@ == pre@.remove(k),
    {
        pre.entries@.remove_ensures(i);
        assert forall|k2: K::V| #[trigger] self@.contains_key(k2) implies pre@.remove(
            k,
        ).contains_key(k2) by {
            let j = choose|j: int| 0 <= j < self.entries@.len() && self.entries@[j].key@ == k2;
            let j0: int = if j < i { j } else { j + 1 };
            assert(pre.entries@[j0].key@ == k2);
            pre.lemma_idx(k2);
            assert(k2 != k) by {
                if k2 == k {
                    assert(j0 == i);
                }
            }
        }
        assert forall|k2: K::V| #[trigger] pre@.remove(k).contains_key(k2) implies self@.contains_key(
            k2,
        ) by {
            let j0 = choose|j: int| 0 <= j < pre.entries@.len() && pre.entries@[j].key@ == k2;
            assert(j0 != i);
            let j: int = if j0 < i { j0 } else { j0 - 1 };
            assert(self.entries@[j] == pre.entries@[j0]);
        }
        assert forall|k2: K::V| self@.contains_key(k2) && pre@.remove(k).contains_key(
            k2,
        ) implies #[trigger] self@[k2] == pre@.remove(k)[k2] by {
            self.lemma_idx(k2);
            pre.lemma_idx(k2);
            let j = self.spec_idx(k2);
            let j0: int = if j < i { j } else { j + 1 };
            assert(self.entries@[j] == pre.entries@[j0]);
            assert(pre.spec_idx(k2) == j0);
        }
        assert(self@ =~= pre@.remove(k));
    }

    /// Removes the key and hands its value out, if present.
    pub fn take(&mut self, k: &K) -> (r: Option<V>)
        ensures
            final(self)@ == old(self)@.remove(k@),
            match r {
                Some(v) => old(self)@.contains_key(k@) && v@ == old(self)@[k@],
                None => !old(self)@.contains_key(k@),
            },
    {
        proof {
            use_type_invariant(&*self);
        }
        let mut entries: Vec<Entry<K, V>> = Vec::new();
        std::mem::swap(&mut entries, &mut self.entries);
        let n = entries.len();
        let mut i: usize = 0;
        while i < n
            invariant
                n == entries@.len(),
                i <= n,
                entries@ == old(self).entries@,
                old(self).wf(),
                forall|j: int| 0 <= j < i ==> entries@[j].key@ != k@,
        decreases n - i,
        {
            if entries[i].key.same(k) {
                proof {
                    old(self).lemma_idx(k@);
                    assert(old(self).spec_idx(k@) == i);
                    assert(old(self).spec_has(k@));
                    assert(old(self)@.contains_key(k@));
                }
                let e = entries.remove(i);
                proof {
                    old(self).entries@.remove_ensures(i as int);
                    assert forall|a: int, b: int|
                        0 <= a < b < entries@.len() implies entries@[a].key@ != entries@[b].key@ by {
                        let a0: int = if a < i { a } else { a + 1 };
                        let b0: int = if b < i { b } else { b + 1 };
                        assert(entries@[a] == old(self).entries@[a0]);
                        assert(entries@[b] == old(self).entries@[b0]);
                    }
                }
                self.entries = entries;
                proof {
                    use_type_invariant(&*self);
                    self.lemma_view_remove(*old(self), i as int, k@);
                }
                return Some(e.val);
            }
            i += 1;
        }
        std::mem::swap(&mut entries, &mut self.entries);
        proof {
            use_type_invariant(&*self);
            Self::lemma_view_eq(*self, *old(self));
            assert(!old(self).spec_has(k@));
            assert(self@ =~= old(self)@.remove(k@)) by {
                assert(!old(self)@.contains_key(k@));
            }
        }
        None
    }

    /// Inserts the pair, overwriting any previous value under the key.
    pub fn insert(&mut self, k: K, v: V)
        ensures
            final(self)@ == old(self)@.insert(k@, v@),
    {
        self.remove(&k);
        proof {
            use_type_invariant(&*self);
        }
        let ghost mid = *self;
        let mut entries: Vec<Entry<K, V>> = Vec::new();
        std::mem::swap(&mut entries, &mut self.entries);
        entries.push(Entry { key: k, val: v });
        proof {
            assert(!mid@.contains_key(k@));
            assert(entries@[entries@.len() - 1].key@ == k@);
            assert forall|a: int, b: int|
                0 <= a < b < entries@.len() implies entries@[a].key@ != entries@[b].key@ by {
                if b < entries@.len() - 1 {
                    assert(mid.wf());
                    assert(entries@[a] == mid.entries@[a]);
                    assert(entries@[b] == mid.entries@[b]);
                } else {
                    assert(entries@[a] == mid.entries@[a]);
                    if entries@[a].key@ == k@ {
                        assert(mid.spec_has(k@));
                        assert(mid@.contains_key(k@));
                        assert(false);
                    }
                }
            }
        }
        self.entries = entries;
        proof {
            let ghost post = *self;
            assert forall|k2: K::V| #[trigger] post@.contains_key(k2) <==> (mid@.contains_key(k2)
                || k2 == k@) by {
                if post.spec_has(k2) {
                    let j = choose|j: int|
                        0 <= j < post.entries@.len() && post.entries@[j].key@ == k2;
                    if j < post.entries@.len() - 1 {
                        assert(mid.entries@[j].key@ == k2);
                    }
                }
                if mid.spec_has(k2) {
                    let j = choose|j: int| 0 <= j < mid.entries@.len() && mid.entries@[j].key@ == k2;
                    assert(post.entries@[j].key@ == k2);
                }
                if k2 == k@ {
                    assert(post.entries@[post.entries@.len() - 1].key@ == k2);
                }
            }
            assert forall|k2: K::V| #[trigger] post@.contains_key(k2) implies post@[k2]
                == mid@.insert(k@, v@)[k2] by {
                post.lemma_idx(k2);
                let j = post.spec_idx(k2);
                if k2 == k@ {
                    assert(post.entries@[post.entries@.len() - 1].key@ == k2);
                    assert(j == post.entries@.len() - 1);
                } else {
                    assert(post.entries@[j].key@ == k2);
                    assert(j < post.entries@.len() - 1) by {
                        if j == post.entries@.len() - 1 {
                            assert(post.entries@[j].key@ == k@);
                        }
                    }
                    assert(mid.entries@[j] == post.entries@[j]);
                    mid.lemma_idx(k2);
                    assert(mid.spec_idx(k2) == j);
                }
            }
            assert(post@ =~= mid@.insert(k@, v@));
            assert(mid@ == old(self)@.remove(k@));
            assert(post@ =~= old(self)@.insert(k@, v@));
        }
    }
}

impl<K: KeyLike, V: View + Dup> KvMap<K, V> {
    /// A copy of the whole store, with the same view.
    pub fn dup(&self) -> (r: Self)
        ensures
            r@ == self@,
    {
        proof {
            use_type_invariant(&*self);
        }
        let n = self.entries.len();
        let mut entries: Vec<Entry<K, V>> = Vec::new();
        let mut i: usize = 0;
        while i < n
            invariant
                n == self.entries@.len(),
                i <= n,
                entries@.len() == i,
                forall|j: int|
                    0 <= j < i ==> entries@[j].key@ == self.entries@[j].key@ && entries@[j].val@
                        == self.entries@[j].val@,
                self.wf(),
        decreases n - i,
        {
            let e = &self.entries[i];
            entries.push(Entry { key: e.key.dup_key(), val: e.val.dup() });
            i += 1;
        }
        let r = KvMap { entries };
        proof {
            use_type_invariant(&r);
            assert forall|k2: K::V| #[trigger] r@.contains_key(k2) <==> self@.contains_key(k2) by {
                if r.spec_has(k2) {
                    let j = choose|j: int| 0 <= j < r.entries@.len() && r.entries@[j].key@ == k2;
                    assert(self.entries@[j].key@ == k2);
                }
                if self.spec_has(k2) {
                    let j = choose|j: int|
                        0 <= j < self.entries@.len() && self.entries@[j].key@ == k2;
                    assert(r.entries@[j].key@ == k2);
                }
            }
            assert forall|k2: K::V| #[trigger] r@.contains_key(k2) implies r@[k2] == self@[k2] by {
                r.lemma_idx(k2);
                self.lemma_idx(k2);
                let j = r.spec_idx(k2);
                assert(self.entries@[j].key@ == k2);
                assert(self.spec_idx(k2) == j);
            }
            assert(r@ =~= self@);
        }
        r
    }
}

impl<K: KeyLike, V: View> View for KvMap<K, V> {
    type V = Map<K::V, V::V>;

    closed spec fn view(&self) -> Map<K::V, V::V> {
        Map::new(|k: K::V| self.spec_has(k), |k: K::V| self.entries@[self.spec_idx(k)].val@)
    }
}

impl<K: KeyLike, V: View + Dup> Dup for KvMap<K, V> {
    fn dup(&self) -> (r: Self)
        ensures
            r@ == self@,
    {
        KvMap::dup(self)
    }
}

} // verus!
