//! A map that keeps its entries sorted by key, as the application keeps its
//! channels and chats.
use vstd::prelude::*;

verus! {

/// A key with a place in a total order: its rank. Different keys have
/// different ranks.
pub trait Ranked: Copy + Sized {
    spec fn rank(&self) -> int;

    fn rank_of(&self) -> (r: u64)
        ensures
            r as int == self.rank(),
    ;

    proof fn lemma_rank_injective(a: Self, b: Self)
        requires
            a.rank() == b.rank(),
        ensures
            a == b,
    ;
}

impl Ranked for u32 {
    open spec fn rank(&self) -> int {
        *self as int
    }

    fn rank_of(&self) -> (r: u64) {
        *self as u64
    }

    proof fn lemma_rank_injective(a: Self, b: Self) {
    }
}

/// Entries sorted by strictly increasing key.
#[derive(Debug)]
pub struct OrderedMap<K, V> {
    pub entries: Vec<(K, V)>,
}

impl<K: Ranked, V> OrderedMap<K, V> {
    /// The keys are sorted and distinct.
    pub open spec fn wf(self) -> bool {
        forall|i: int, j: int|
            0 <= i < j < self.entries.len() ==> #[trigger] self.entries@[i].0.rank()
                < #[trigger] self.entries@[j].0.rank()
    }

    /// Whether `k` has an entry.
    pub open spec fn contains(self, k: K) -> bool {
        exists|i: int| 0 <= i < self.entries.len() && #[trigger] self.entries@[i].0 == k
    }

    /// Where `k` belongs: the number of entries with a smaller key.
    pub open spec fn place_of(entries: Seq<(K, V)>, k: K, p: int) -> bool {
        &&& 0 <= p <= entries.len()
        &&& forall|i: int| 0 <= i < p ==> #[trigger] entries[i].0.rank() < k.rank()
        &&& forall|i: int| p <= i < entries.len() ==> k.rank() <= #[trigger] entries[i].0.rank()
    }

    pub fn new() -> (r: Self)
        ensures
            r.wf(),
            r.entries@ == Seq::<(K, V)>::empty(),
    {
        OrderedMap { entries: Vec::new() }
    }

    pub fn len(&self) -> (r: usize)
        ensures
            r == self.entries.len(),
    {
        self.entries.len()
    }

    /// The index of the first entry whose key is not smaller than `k`.
    pub fn position(&self, k: &K) -> (r: usize)
        requires
            self.wf(),
        ensures
            Self::place_of(self.entries@, *k, r as int),
    {
        let kr = k.rank_of();
        let mut i: usize = 0;
        while i < self.entries.len()
            invariant
                self.wf(),
                kr as int == k.rank(),
                i <= self.entries.len(),
                forall|j: int| 0 <= j < i ==> #[trigger] self.entries@[j].0.rank() < k.rank(),
            decreases self.entries.len() - i,
        {
            if self.entries[i].0.rank_of() >= kr {
                return i;
            }
            i = i + 1;
        }
        i
    }

    /// The index of the entry of `k`, if it has one.
    pub fn find(&self, k: &K) -> (r: Option<usize>)
        requires
            self.wf(),
        ensures
            r matches Some(i) ==> i < self.entries.len() && self.entries@[i as int].0 == *k,
            r is None ==> !self.contains(*k),
    {
        let p = self.position(k);
        if p < self.entries.len() && self.entries[p].0.rank_of() == k.rank_of() {
            proof {
                K::lemma_rank_injective(self.entries@[p as int].0, *k);
            }
            Some(p)
        } else {
            proof {
                if self.contains(*k) {
                    let i = choose|i: int| 0 <= i < self.entries.len() && #[trigger] self.entries@[i].0 == *k;
                    if i < p {
                    } else if i > p {
                        assert(self.entries@[p as int].0.rank() < self.entries@[i].0.rank());
                    }
                }
            }
            None
        }
    }

    pub fn contains_key(&self, k: &K) -> (r: bool)
        requires
            self.wf(),
        ensures
            r == self.contains(*k),
    {
        self.find(k).is_some()
    }

    /// Inserts `v` under `k` where `k` belongs among the sorted keys, or
    /// replaces the value of `k` in place.
    pub fn insert_sorted(&mut self, k: K, v: V)
        requires
            old(self).wf(),
        ensures
            final(self).wf(),
            old(self).contains(k) ==> exists|i: int|
                0 <= i < old(self).entries.len() && old(self).entries@[i].0 == k
                    && final(self).entries@ == old(self).entries@.update(i, (k, v)),
            !old(self).contains(k) ==> exists|p: int|
                Self::place_of(old(self).entries@, k, p) && final(self).entries@ == old(
                    self,
                ).entries@.insert(p, (k, v)),
    {
        match self.find(&k) {
            Some(i) => {
                self.entries.set(i, (k, v));
                proof {
                    assert forall|a: int, b: int|
                        0 <= a < b < self.entries.len() implies #[trigger] self.entries@[a].0.rank()
                        < #[trigger] self.entries@[b].0.rank() by {
                        assert(old(self).entries@[a].0.rank() < old(self).entries@[b].0.rank());
                    }
                }
            },
            None => {
                let p = self.position(&k);
                self.entries.insert(p, (k, v));
                proof {
                    let olde = old(self).entries@;
                    assert forall|a: int, b: int|
                        0 <= a < b < self.entries.len() implies #[trigger] self.entries@[a].0.rank()
                        < #[trigger] self.entries@[b].0.rank() by {
                        if a < p && b < p {
                            assert(olde[a].0.rank() < olde[b].0.rank());
                        } else if a < p && b == p {
                        } else if a < p {
                            assert(olde[a].0.rank() < olde[b - 1].0.rank());
                        } else if a == p {
                            assert(k.rank() <= olde[b - 1].0.rank());
                            if k.rank() == olde[b - 1].0.rank() {
                                K::lemma_rank_injective(k, olde[b - 1].0);
                                assert(olde[b - 1].0 == k);
                            }
                        } else {
                            assert(olde[a - 1].0.rank() < olde[b - 1].0.rank());
                        }
                    }
                    assert(Self::place_of(olde, k, p as int));
                }
            },
        }
    }

    /// The value of `k`, if it has one.
    pub fn get(&self, k: &K) -> (r: Option<&V>)
        requires
            self.wf(),
        ensures
            r matches Some(v) ==> exists|i: int|
                0 <= i < self.entries.len() && #[trigger] self.entries@[i] == (*k, *v),
            r is None ==> !self.contains(*k),
    {
        match self.find(k) {
            Some(i) => {
                assert(self.entries@[i as int] == (*k, self.entries@[i as int].1));
                Some(&self.entries[i].1)
            },
            None => None,
        }
    }

    /// Removes the entry of `k`, keeping the order of the others, and
    /// returns its value.
    pub fn remove(&mut self, k: &K) -> (r: Option<V>)
        requires
            old(self).wf(),
        ensures
            final(self).wf(),
            r is None ==> !old(self).contains(*k) && final(self).entries@ == old(self).entries@,
            r matches Some(v) ==> exists|i: int|
                0 <= i < old(self).entries.len() && old(self).entries@[i] == (*k, v)
                    && final(self).entries@ == old(self).entries@.remove(i),
    {
        match self.find(k) {
            Some(i) => {
                let e = self.entries.remove(i);
                proof {
                    let olde = old(self).entries@;
                    assert forall|a: int, b: int|
                        0 <= a < b < self.entries.len() implies #[trigger] self.entries@[a].0.rank()
                        < #[trigger] self.entries@[b].0.rank() by {
                        if a < i && b < i {
                            assert(olde[a].0.rank() < olde[b].0.rank());
                        } else if a < i {
                            assert(olde[a].0.rank() < olde[b + 1].0.rank());
                        } else {
                            assert(olde[a + 1].0.rank() < olde[b + 1].0.rank());
                        }
                    }
                }
                Some(e.1)
            },
            None => None,
        }
    }

    /// The value of the entry at `i`.
    pub fn value_at(&self, i: usize) -> (r: &V)
        requires
            i < self.entries.len(),
        ensures
            *r == self.entries@[i as int].1,
    {
        &self.entries[i].1
    }

    /// Replaces the value of the entry at `i`, keeping its key and place.
    pub fn set_value(&mut self, i: usize, v: V)
        requires
            old(self).wf(),
            i < old(self).entries.len(),
        ensures
            final(self).wf(),
            final(self).entries@ == old(self).entries@.update(
                i as int,
                (old(self).entries@[i as int].0, v),
            ),
    {
        let k = self.entries[i].0;
        self.entries.set(i, (k, v));
        proof {
            assert forall|a: int, b: int|
                0 <= a < b < self.entries.len() implies #[trigger] self.entries@[a].0.rank()
                < #[trigger] self.entries@[b].0.rank() by {
                assert(old(self).entries@[a].0.rank() < old(self).entries@[b].0.rank());
            }
        }
    }

    /// Removes every entry.
    pub fn clear(&mut self)
        ensures
            final(self).wf(),
            final(self).entries@ == Seq::<(K, V)>::empty(),
    {
        self.entries.clear();
    }
}

} // verus!
