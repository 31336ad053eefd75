//! A small table from keys to values, kept as a list of entries with
//! distinct keys.

use vstd::prelude::*;

verus! {

/// A key of a table: a value that can be told apart from every other.
pub trait Key: Copy {
    /// Whether the two keys are the same.
    fn same(&self, other: &Self) -> (r: bool)
        ensures
            r == (*self == *other),
    ;
}

/// A table from keys to values. Its view is the map that it holds.
pub struct Table<K: Key, V: Copy> {
    entries: Vec<(K, V)>,
}

impl<K: Key, V: Copy> Table<K, V> {
    /// No key stands in two entries.
    pub closed spec fn wf(&self) -> bool {
        forall|i: int, j: int|
            0 <= i < j < self.entries@.len() ==> self.entries@[i].0 != self.entries@[j].0
    }

    /// Whether an entry of the table has the key `k`.
    spec fn has(&self, k: K) -> bool {
        exists|i: int| 0 <= i < self.entries@.len() && self.entries@[i].0 == k
    }

    /// The place of an entry with the key `k`.
    spec fn place(&self, k: K) -> int {
        choose|i: int| 0 <= i < self.entries@.len() && self.entries@[i].0 == k
    }

    pub closed spec fn view(&self) -> Map<K, V> {
        Map::new(|k: K| self.has(k), |k: K| self.entries@[self.place(k)].1)
    }

    /// The table without entries.
    pub fn new() -> (r: Self)
        ensures
            r.wf(),
            r@ == Map::<K, V>::empty(),
    {
        let r = Table { entries: Vec::new() };
        assert(r@ =~= Map::<K, V>::empty());
        r
    }

    /// The place of the entry with the key `k`, if there is one.
    fn position(&self, k: K) -> (r: Option<usize>)
        ensures
            r matches Some(i) ==> i < self.entries@.len() && self.entries@[i as int].0 == k,
            r is None ==> !self.has(k),
    {
        let mut i: usize = 0;
        while i < self.entries.len()
            invariant
                i <= self.entries@.len(),
                forall|j: int| 0 <= j < i ==> self.entries@[j].0 != k,
            decreases self.entries@.len() - i,
        {
            if self.entries[i].0.same(&k) {
                return Some(i);
            }
            i = i + 1;
        }
        None
    }

    /// The value that the table holds for `k`, if it holds one.
    pub fn get(&self, k: K) -> (r: Option<V>)
        requires
            self.wf(),
        ensures
            r == (if self@.contains_key(k) {
                Some(self@[k])
            } else {
                None
            }),
    {
        match self.position(k) {
            Some(i) => Some(self.entries[i].1),
            None => None,
        }
    }

    /// Makes the table hold `v` for `k`, whatever it held for `k` before.
    pub fn set(&mut self, k: K, v: V)
        requires
            old(self).wf(),
        ensures
            final(self).wf(),
            final(self)@ == old(self)@.insert(k, v),
    {
        let found = self.position(k);
        let ghost at: int = match found {
            Some(i) => i as int,
            None => self.entries@.len() as int,
        };
        match found {
            Some(i) => {
                self.entries[i] = (k, v);
            },
            None => {
                self.entries.push((k, v));
            },
        }
        proof {
            let before = *old(self);
            let after = *self;
            assert(after.entries@[at] == (k, v));
            assert forall|q: K| after.has(q) <==> (q == k || before.has(q)) by {
                if before.has(q) && q != k {
                    assert(after.entries@[before.place(q)].0 == q);
                }
                if after.has(q) && q != k {
                    assert(before.entries@[after.place(q)].0 == q);
                }
            }
            assert forall|q: K| after.has(q) implies after.entries@[after.place(q)].1 == (if q
                == k {
                v
            } else {
                before.entries@[before.place(q)].1
            }) by {
                if q != k {
                    assert(before.entries@[after.place(q)].0 == q);
                    assert(before.has(q));
                    assert(before.place(q) == after.place(q));
                } else {
                    assert(after.place(q) == at);
                }
            }
            assert(after@ =~= before@.insert(k, v));
        }
    }
}

} // verus!
