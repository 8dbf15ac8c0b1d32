//! A small keyed table over `u64` keys, used by the token and registry
//! contracts for balances, flags and per-token records.
//!
//! Writes append `(key, value)` pairs and reads take the latest pair for a
//! key, so the entry sequence is a log of every write in order and the
//! lookup is the usual last-write-wins map.

use vstd::prelude::*;

verus! {

/// The value the latest entry for `key` carries, or `None` when no entry
/// carries `key`.
pub open spec fn lookup<V>(entries: Seq<(u64, V)>, key: u64) -> Option<V>
    decreases entries.len(),
{
    if entries.len() == 0 {
        None
    } else if entries.last().0 == key {
        Some(entries.last().1)
    } else {
        lookup(entries.drop_last(), key)
    }
}

/// Appending one entry rebinds exactly its own key.
pub proof fn lemma_lookup_push<V>(entries: Seq<(u64, V)>, e: (u64, V), key: u64)
    ensures
        lookup(entries.push(e), key) == if e.0 == key {
            Some(e.1)
        } else {
            lookup(entries, key)
        },
{
    assert(entries.push(e).drop_last() =~= entries);
    assert(entries.push(e).last() == e);
}

/// A keyed table: the write log of `(key, value)` pairs.
pub struct Table<V> {
    entries: Vec<(u64, V)>,
}

impl<V> Table<V> {
    /// The write log, oldest first; `lookup` on it is the table's map.
    pub closed spec fn log(&self) -> Seq<(u64, V)> {
        self.entries@
    }

    /// The value bound to `key`, if any.
    pub open spec fn spec_get(&self, key: u64) -> Option<V> {
        lookup(self.log(), key)
    }

    /// A table that binds nothing.
    pub fn new() -> (t: Table<V>)
        ensures
            t.log() == Seq::<(u64, V)>::empty(),
            forall|k: u64| #[trigger] t.spec_get(k) is None,
    {
        Table { entries: Vec::new() }
    }

    /// Binds `key` to `value`; no other key changes.
    pub fn set(&mut self, key: u64, value: V)
        ensures
            final(self).log() == old(self).log().push((key, value)),
            final(self).spec_get(key) == Some(value),
            forall|k: u64|
                k != key ==> #[trigger] final(self).spec_get(k) == old(self).spec_get(k),
    {
        let ghost entries = self.entries@;
        self.entries.push((key, value));
        proof {
            assert forall|k: u64| true implies #[trigger] lookup(entries.push((key, value)), k)
                == if key == k {
                Some(value)
            } else {
                lookup(entries, k)
            } by {
                lemma_lookup_push(entries, (key, value), k);
            }
        }
    }

    /// A borrow of the value bound to `key`, or `None`.
    pub fn get(&self, key: u64) -> (r: Option<&V>)
        ensures
            match r {
                Some(v) => self.spec_get(key) == Some(*v),
                None => self.spec_get(key) is None,
            },
    {
        let mut i: usize = self.entries.len();
        proof {
            assert(self.entries@.take(i as int) =~= self.entries@);
        }
        while i > 0
            invariant
                i <= self.entries.len(),
                lookup(self.entries@, key) == lookup(self.entries@.take(i as int), key),
            decreases i,
        {
            i = i - 1;
            proof {
                assert(self.entries@.take(i + 1).drop_last() =~= self.entries@.take(i as int));
                assert(self.entries@.take(i + 1).last() == self.entries@[i as int]);
            }
            if self.entries[i].0 == key {
                return Some(&self.entries[i].1);
            }
        }
        proof {
            assert(self.entries@.take(0) =~= Seq::<(u64, V)>::empty());
        }
        None
    }
}

impl<V: Copy> Table<V> {
    /// The value bound to `key`, or `or` when the table binds nothing to
    /// it: the defaulting read the token contracts use for balances and
    /// flags.
    pub fn get_or(&self, key: u64, or: V) -> (r: V)
        ensures
            r == match self.spec_get(key) {
                Some(v) => v,
                None => or,
            },
    {
        match self.get(key) {
            Some(v) => *v,
            None => or,
        }
    }
}

} // verus!
