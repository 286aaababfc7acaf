//! An association table from addresses to values, viewed as a finite map.
//!
//! This is the model of the runtime's keyed account storage: one value per
//! address, atomically read and updated. Entries live in a vector with
//! pairwise-distinct keys; the view is the finite map the entries denote.

use vstd::prelude::*;

use crate::identity::Identity;

verus! {

/// The finite map denoted by a sequence of key-value entries (later entries
/// would win, but a well-formed table has distinct keys).
pub open spec fn entries_map<T>(s: Seq<(Identity, T)>) -> Map<Identity, T>
    decreases s.len(),
{
    if s.len() == 0 {
        Map::empty()
    } else {
        entries_map(s.drop_last()).insert(s.last().0, s.last().1)
    }
}

/// Pairwise-distinct keys.
pub open spec fn distinct_keys<T>(s: Seq<(Identity, T)>) -> bool {
    forall|i: int, j: int|
        0 <= i < j < s.len() ==> (#[trigger] s[i]).0 != (#[trigger] s[j]).0
}

/// A key is in the map exactly when some entry carries it.
proof fn lemma_entries_map_contains<T>(s: Seq<(Identity, T)>, k: Identity)
    ensures
        entries_map(s).contains_key(k) <==> exists|i: int| 0 <= i < s.len() && (#[trigger] s[i]).0 == k,
    decreases s.len(),
{
    if s.len() > 0 {
        lemma_entries_map_contains(s.drop_last(), k);
        if s.last().0 == k {
            assert(s[s.len() - 1].0 == k);
        } else if entries_map(s).contains_key(k) {
            let i = choose|i: int| 0 <= i < s.drop_last().len() && (#[trigger] s.drop_last()[i]).0 == k;
            assert(s[i].0 == k);
        } else {
            assert forall|i: int| 0 <= i < s.len() implies (#[trigger] s[i]).0 != k by {
                if i < s.len() - 1 {
                    assert(s.drop_last()[i].0 != k);
                }
            }
        }
    }
}

/// With distinct keys, the map sends each entry's key to that entry's value.
proof fn lemma_entries_map_get<T>(s: Seq<(Identity, T)>, i: int)
    requires
        distinct_keys(s),
        0 <= i < s.len(),
    ensures
        entries_map(s).contains_key(s[i].0),
        entries_map(s)[s[i].0] == s[i].1,
    decreases s.len(),
{
    if i < s.len() - 1 {
        assert(distinct_keys(s.drop_last()));
        assert(s.drop_last()[i] == s[i]);
        lemma_entries_map_get(s.drop_last(), i);
        assert(s[i].0 != s.last().0);
    }
}

/// Updating the entry that carries `k` updates the map at `k`.
proof fn lemma_entries_map_update<T>(s: Seq<(Identity, T)>, i: int, v: T)
    requires
        distinct_keys(s),
        0 <= i < s.len(),
    ensures
        entries_map(s.update(i, (s[i].0, v))) =~= entries_map(s).insert(s[i].0, v),
    decreases s.len(),
{
    let k = s[i].0;
    let s2 = s.update(i, (k, v));
    if i == s.len() - 1 {
        assert(s2.drop_last() =~= s.drop_last());
        assert(s2.last() == (k, v));
    } else {
        assert(distinct_keys(s.drop_last()));
        assert(s.drop_last()[i] == s[i]);
        lemma_entries_map_update(s.drop_last(), i, v);
        assert(s2.drop_last() =~= s.drop_last().update(i, (k, v)));
        assert(s2.last() == s.last());
        assert(s.last().0 != k);
    }
}

/// Removing the entry that carries `k` removes `k` from the map.
proof fn lemma_entries_map_remove<T>(s: Seq<(Identity, T)>, i: int)
    requires
        distinct_keys(s),
        0 <= i < s.len(),
    ensures
        entries_map(s.remove(i)) =~= entries_map(s).remove(s[i].0),
    decreases s.len(),
{
    let k = s[i].0;
    let s2 = s.remove(i);
    lemma_entries_map_contains(s, k);
    if i == s.len() - 1 {
        assert(s2 =~= s.drop_last());
        lemma_entries_map_contains(s.drop_last(), k);
        assert forall|j: int| 0 <= j < s.drop_last().len() implies (#[trigger] s.drop_last()[j]).0 != k by {
            assert(s[j] == s.drop_last()[j]);
        }
        assert(!entries_map(s.drop_last()).contains_key(k));
        assert(entries_map(s2) =~= entries_map(s).remove(k));
    } else {
        assert(distinct_keys(s.drop_last()));
        assert(s.drop_last()[i] == s[i]);
        lemma_entries_map_remove(s.drop_last(), i);
        assert(s2.drop_last() =~= s.drop_last().remove(i));
        assert(s2.last() == s.last());
        assert(s.last().0 != k);
    }
}

/// An association table from addresses to values with pairwise-distinct keys.
pub struct Table<T> {
    entries: Vec<(Identity, T)>,
}

impl<T> View for Table<T> {
    type V = Map<Identity, T>;

    closed spec fn view(&self) -> Map<Identity, T> {
        entries_map(self.entries@)
    }
}

impl<T> Table<T> {
    /// The keys are pairwise distinct.
    pub closed spec fn wf(&self) -> bool {
        distinct_keys(self.entries@)
    }

    /// An empty table.
    pub fn new() -> (r: Table<T>)
        ensures
            r.wf(),
            r@ == Map::<Identity, T>::empty(),
    {
        Table { entries: Vec::new() }
    }

    /// The position of the entry carrying `key`, if any.
    fn index_of(&self, key: Identity) -> (r: Option<usize>)
        ensures
            match r {
                Some(i) => i < self.entries@.len() && self.entries@[i as int].0 == key,
                None => forall|i: int| 0 <= i < self.entries@.len() ==> (#[trigger] self.entries@[i]).0 != key,
            },
    {
        let mut i: usize = 0;
        while i < self.entries.len()
            invariant
                i <= self.entries@.len(),
                forall|j: int| 0 <= j < i ==> (#[trigger] self.entries@[j]).0 != key,
            decreases self.entries@.len() - i,
        {
            if self.entries[i].0 == key {
                return Some(i);
            }
            i = i + 1;
        }
        None
    }

    /// Bind `key` to `value`, replacing any earlier binding.
    pub fn set(&mut self, key: Identity, value: T)
        requires
            old(self).wf(),
        ensures
            final(self).wf(),
            final(self)@ == old(self)@.insert(key, value),
    {
        proof {
            lemma_entries_map_contains(self.entries@, key);
        }
        match self.index_of(key) {
            Some(i) => {
                proof {
                    lemma_entries_map_update(self.entries@, i as int, value);
                }
                self.entries[i] = (key, value);
                assert(self@ =~= old(self)@.insert(key, value));
            }
            None => {
                let ghost s0 = self.entries@;
                self.entries.push((key, value));
                proof {
                    assert(self.entries@.drop_last() =~= s0);
                    assert forall|i: int, j: int| 0 <= i < j < self.entries@.len()
                        implies (#[trigger] self.entries@[i]).0 != (#[trigger] self.entries@[j]).0 by {
                        if j < self.entries@.len() - 1 {
                            assert(s0[i].0 != s0[j].0);
                        } else {
                            assert(s0[i].0 != key);
                        }
                    }
                    assert(self@ =~= old(self)@.insert(key, value));
                }
            }
        }
    }

    /// Drop the binding of `key`, if any.
    pub fn remove(&mut self, key: Identity)
        requires
            old(self).wf(),
        ensures
            final(self).wf(),
            final(self)@ == old(self)@.remove(key),
    {
        proof {
            lemma_entries_map_contains(self.entries@, key);
        }
        match self.index_of(key) {
            Some(i) => {
                proof {
                    lemma_entries_map_remove(self.entries@, i as int);
                    let s2 = self.entries@.remove(i as int);
                    assert forall|a: int, b: int| 0 <= a < b < s2.len()
                        implies (#[trigger] s2[a]).0 != (#[trigger] s2[b]).0 by {
                        let s = self.entries@;
                        let a0: int = if a < i { a } else { a + 1 };
                        let b0: int = if b < i { b } else { b + 1 };
                        assert(s2[a] == s[a0]);
                        assert(s2[b] == s[b0]);
                    }
                }
                self.entries.remove(i);
                assert(self@ =~= old(self)@.remove(key));
            }
            None => {
                proof {
                    assert(!old(self)@.contains_key(key));
                    assert(self@ =~= old(self)@.remove(key));
                }
            }
        }
    }
}

impl<T: Copy> Table<T> {
    /// Look a key up.
    pub fn get(&self, key: Identity) -> (r: Option<T>)
        requires
            self.wf(),
        ensures
            match r {
                Some(v) => self@.contains_key(key) && v == self@[key],
                None => !self@.contains_key(key),
            },
    {
        proof {
            lemma_entries_map_contains(self.entries@, key);
        }
        match self.index_of(key) {
            Some(i) => {
                proof {
                    lemma_entries_map_get(self.entries@, i as int);
                }
                Some(self.entries[i].1)
            }
            None => None,
        }
    }

    /// Whether a key is present.
    pub fn contains(&self, key: Identity) -> (r: bool)
        requires
            self.wf(),
        ensures
            r == self@.contains_key(key),
    {
        self.get(key).is_some()
    }

    /// A copy of the table, entry by entry.
    pub fn duplicate(&self) -> (r: Table<T>)
        requires
            self.wf(),
        ensures
            r.wf(),
            r@ == self@,
    {
        let mut out: Vec<(Identity, T)> = Vec::new();
        let mut i: usize = 0;
        while i < self.entries.len()
            invariant
                i <= self.entries@.len(),
                out@ == self.entries@.take(i as int),
            decreases self.entries@.len() - i,
        {
            out.push(self.entries[i]);
            i = i + 1;
            proof {
                assert(out@ =~= self.entries@.take(i as int));
            }
        }
        proof {
            assert(out@ =~= self.entries@);
        }
        Table { entries: out }
    }
}

} // verus!
