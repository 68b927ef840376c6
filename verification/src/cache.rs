//! A single-slot memo, keyed by the inputs of the computation it caches.
//!
//! Each computation kind of the engine keeps at most one entry: the key it
//! was computed from and the value that came out.  The entry is served again
//! only when every attribute of the stored key equals the corresponding
//! current input; any mismatch makes the whole entry stale, and the next
//! store replaces it wholesale.

use vstd::prelude::*;

verus! {

/// A memo key: a bundle of the attributes a computation depends on, with an
/// executable attribute-for-attribute equality test.
pub trait CacheKey: Sized {
    /// True exactly when every attribute of the two keys is equal.
    fn key_eq(&self, other: &Self) -> (r: bool)
        ensures
            r <==> self == other,
    ;
}

/// A memo holding at most one `(key, value)` entry.
pub struct SingleSlotCache<K, V> {
    entry: Option<(K, V)>,
}

impl<K: CacheKey, V> SingleSlotCache<K, V> {
    /// The stored entry, if any.
    pub closed spec fn cached(self) -> Option<(K, V)> {
        self.entry
    }

    /// What a lookup under `key` yields: the stored value exactly when the
    /// stored key equals `key` in every attribute.
    pub open spec fn lookup_spec(self, key: K) -> Option<V> {
        match self.cached() {
            Some((k, v)) => if k == key {
                Some(v)
            } else {
                None
            },
            None => None,
        }
    }

    /// An empty memo: nothing has been computed yet.
    pub fn new() -> (c: Self)
        ensures
            c.cached() is None,
    {
        SingleSlotCache { entry: None }
    }

    /// Serves the stored value if its key equals `key`; a mismatch in any
    /// attribute is a miss.
    pub fn lookup(&self, key: &K) -> (r: Option<&V>)
        ensures
            match r {
                Some(v) => self.lookup_spec(*key) == Some(*v),
                None => self.lookup_spec(*key) is None,
            },
    {
        match &self.entry {
            Some((k, v)) => if k.key_eq(key) {
                Some(v)
            } else {
                None
            },
            None => None,
        }
    }

    /// Replaces the entry wholesale with the given key and value.
    pub fn store(&mut self, key: K, value: V)
        ensures
            final(self).cached() == Some((key, value)),
    {
        self.entry = Some((key, value));
    }
}

/// After a store, a lookup under the same key yields the stored value — and
/// under any other key yields nothing: one slot, served on exact key
/// equality only.
pub proof fn lemma_store_then_lookup<K: CacheKey, V>(
    c: SingleSlotCache<K, V>,
    key: K,
    value: V,
    other: K,
)
    requires
        c.cached() == Some((key, value)),
    ensures
        c.lookup_spec(key) == Some(value),
        other != key ==> c.lookup_spec(other) is None,
{
}

} // verus!
