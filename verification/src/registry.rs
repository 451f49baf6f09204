//! A small map keyed by ids, for the stream registries: one entry per key.

use vstd::prelude::*;

verus! {

/// Entries keyed by a `u64` id, at most one per key.
pub struct Registry<V> {
    pub entries: Vec<(u64, V)>,
}

/// `i` holds key `k`.
pub open spec fn key_at<V>(entries: Seq<(u64, V)>, k: u64, i: int) -> bool {
    0 <= i < entries.len() && entries[i].0 == k
}

impl<V> Registry<V> {
    /// No key appears twice.
    pub open spec fn wf(&self) -> bool {
        forall|i: int, j: int|
            0 <= i < self.entries@.len() && 0 <= j < self.entries@.len() && i != j ==> #[trigger] self.entries@[i].0
                != #[trigger] self.entries@[j].0
    }

    pub open spec fn map(&self) -> Map<u64, V> {
        Map::new(
            |k: u64| exists|i: int| key_at(self.entries@, k, i),
            |k: u64| self.entries@[choose|i: int| key_at(self.entries@, k, i)].1,
        )
    }

    pub fn new() -> (r: Registry<V>)
        ensures
            r.wf(),
            r.map() == Map::<u64, V>::empty(),
    {
        let r = Registry { entries: Vec::new() };
        assert(r.map() =~= Map::<u64, V>::empty());
        r
    }

    /// The position of key `k`.
    pub fn position(&self, k: u64) -> (r: Option<usize>)
        ensures
            match r {
                Some(i) => key_at(self.entries@, k, i as int),
                None => !self.map().dom().contains(k),
            },
    {
        let mut i: usize = 0;
        while i < self.entries.len()
            invariant
                i <= self.entries.len(),
                forall|j: int| 0 <= j < i ==> #[trigger] self.entries@[j].0 != k,
            decreases self.entries.len() - i,
        {
            if self.entries[i].0 == k {
                return Some(i);
            }
            i = i + 1;
        }
        None
    }

    /// Whether key `k` has an entry.
    pub fn contains_key(&self, k: u64) -> (r: bool)
        requires
            self.wf(),
        ensures
            r == self.map().dom().contains(k),
    {
        self.position(k).is_some()
    }

    /// The entry of key `k`.
    pub fn get(&self, k: u64) -> (r: Option<&V>)
        requires
            self.wf(),
        ensures
            match r {
                Some(v) => self.map().dom().contains(k) && *v == self.map()[k],
                None => !self.map().dom().contains(k),
            },
    {
        match self.position(k) {
            Some(i) => {
                proof {
                    let c = choose|j: int| key_at(self.entries@, k, j);
                    assert(c == i);
                }
                Some(&self.entries[i].1)
            },
            None => None,
        }
    }

    /// Set the entry of key `k`, replacing any earlier one.
    pub fn insert(&mut self, k: u64, v: V)
        requires
            old(self).wf(),
        ensures
            final(self).wf(),
            final(self).map() == old(self).map().insert(k, v),
    {
        match self.position(k) {
            Some(i) => {
                let ghost before = self.entries@;
                self.entries.set(i, (k, v));
                proof {
                    assert forall|a: int, b: int|
                        0 <= a < self.entries@.len() && 0 <= b < self.entries@.len() && a != b implies #[trigger] self.entries@[a].0
                            != #[trigger] self.entries@[b].0 by {
                        assert(before[a].0 != before[b].0);
                    }
                    assert forall|key: u64| #[trigger] self.map().dom().contains(key) <==> old(self).map().insert(k, v).dom().contains(key) by {
                        if key == k {
                            assert(key_at(self.entries@, key, i as int));
                        }
                        if old(self).map().dom().contains(key) && key != k {
                            let j = choose|j: int| key_at(before, key, j);
                            assert(key_at(self.entries@, key, j));
                        }
                        if self.map().dom().contains(key) && key != k {
                            let j = choose|j: int| key_at(self.entries@, key, j);
                            assert(key_at(before, key, j));
                        }
                    }
                    assert forall|key: u64| #[trigger] self.map().dom().contains(key) implies self.map()[key] == old(self).map().insert(k, v)[key] by {
                        let j = choose|j: int| key_at(self.entries@, key, j);
                        if key == k {
                            assert(j == i);
                        } else {
                            assert(key_at(before, key, j));
                            let j0 = choose|j0: int| key_at(before, key, j0);
                            assert(j0 == j);
                        }
                    }
                    assert(self.map() =~= old(self).map().insert(k, v));
                }
            },
            None => {
                let ghost before = self.entries@;
                self.entries.push((k, v));
                proof {
                    let n = before.len() as int;
                    assert forall|j: int| 0 <= j < n implies before[j].0 != k by {
                        if before[j].0 == k {
                            assert(key_at(before, k, j));
                        }
                    }
                    assert forall|a: int, b: int|
                        0 <= a < self.entries@.len() && 0 <= b < self.entries@.len() && a != b implies #[trigger] self.entries@[a].0
                            != #[trigger] self.entries@[b].0 by {
                        if a < n && b < n {
                            assert(before[a].0 != before[b].0);
                        }
                    }
                    assert forall|key: u64| #[trigger] self.map().dom().contains(key) <==> old(self).map().insert(k, v).dom().contains(key) by {
                        if old(self).map().dom().contains(key) && key != k {
                            let j = choose|j: int| key_at(before, key, j);
                            assert(key_at(self.entries@, key, j));
                        }
                        if key == k {
                            assert(key_at(self.entries@, key, n));
                        }
                        if self.map().dom().contains(key) && key != k {
                            let j = choose|j: int| key_at(self.entries@, key, j);
                            assert(key_at(before, key, j));
                        }
                    }
                    assert forall|key: u64| #[trigger] self.map().dom().contains(key) implies self.map()[key] == old(self).map().insert(k, v)[key] by {
                        let j = choose|j: int| key_at(self.entries@, key, j);
                        if key == k {
                            assert(j == n);
                        } else {
                            assert(key_at(before, key, j));
                            let j0 = choose|j0: int| key_at(before, key, j0);
                            assert(j0 == j);
                        }
                    }
                    assert(self.map() =~= old(self).map().insert(k, v));
                }
            },
        }
    }

    /// Remove the entry of key `k`, returning it.
    pub fn remove(&mut self, k: u64) -> (r: Option<V>)
        requires
            old(self).wf(),
        ensures
            final(self).wf(),
            final(self).map() == old(self).map().remove(k),
            match r {
                Some(v) => old(self).map().dom().contains(k) && v == old(self).map()[k],
                None => !old(self).map().dom().contains(k),
            },
    {
        match self.position(k) {
            Some(i) => {
                let ghost before = self.entries@;
                let (_, v) = self.entries.remove(i);
                proof {
                    let c = choose|j: int| key_at(before, k, j);
                    assert(c == i);
                    assert forall|key: u64| #[trigger] self.map().dom().contains(key) <==> old(self).map().remove(k).dom().contains(key) by {
                        if old(self).map().dom().contains(key) && key != k {
                            let j = choose|j: int| key_at(before, key, j);
                            if j < i {
                                assert(key_at(self.entries@, key, j));
                            } else {
                                assert(key_at(self.entries@, key, j - 1));
                            }
                        }
                        if self.map().dom().contains(key) {
                            let j = choose|j: int| key_at(self.entries@, key, j);
                            if j < i {
                                assert(key_at(before, key, j));
                            } else {
                                assert(key_at(before, key, j + 1));
                            }
                        }
                    }
                    assert forall|key: u64| #[trigger] self.map().dom().contains(key) implies self.map()[key] == old(self).map().remove(k)[key] by {
                        let j = choose|j: int| key_at(self.entries@, key, j);
                        let j1 = if j < i { j } else { j + 1 };
                        assert(key_at(before, key, j1));
                        let j0 = choose|j0: int| key_at(before, key, j0);
                        assert(j0 == j1);
                    }
                    assert(self.map() =~= old(self).map().remove(k));
                }
                Some(v)
            },
            None => {
                assert(self.map() =~= old(self).map().remove(k));
                None
            },
        }
    }

    /// The keys, in entry order.
    pub fn keys(&self) -> (r: Vec<u64>)
        ensures
            r@.len() == self.entries@.len(),
            forall|i: int| 0 <= i < r@.len() ==> #[trigger] r@[i] == self.entries@[i].0,
    {
        let mut out: Vec<u64> = Vec::new();
        let mut i: usize = 0;
        while i < self.entries.len()
            invariant
                i <= self.entries.len(),
                out@.len() == i,
                forall|j: int| 0 <= j < i ==> #[trigger] out@[j] == self.entries@[j].0,
            decreases self.entries.len() - i,
        {
            out.push(self.entries[i].0);
            i = i + 1;
        }
        out
    }
}

} // verus!
