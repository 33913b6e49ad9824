use std::sync::Arc;
use vstd::hash_map::StringHashMap;
use vstd::prelude::*;

verus! {

/// What a lookup of `key` in the mapping `m` gives: the stored value, or
/// `None` where `key` has no entry.
pub open spec fn lookup<V>(m: Map<Seq<char>, Arc<V>>, key: Seq<char>) -> Option<Arc<V>> {
    if m.contains_key(key) {
        Some(m[key])
    } else {
        None
    }
}

/// The table that a lock guards: each key has at most one value, and a value
/// is replaced by installing another one, never changed in place.
#[verifier::reject_recursive_types(V)]
pub struct Table<V> {
    entries: StringHashMap<Arc<V>>,
}

impl<V> View for Table<V> {
    type V = Map<Seq<char>, Arc<V>>;

    closed spec fn view(&self) -> Map<Seq<char>, Arc<V>> {
        self.entries@
    }
}

impl<V> Table<V> {
    /// An empty table.
    pub fn new() -> (r: Self)
        ensures
            r@ == Map::<Seq<char>, Arc<V>>::empty(),
    {
        Table { entries: StringHashMap::new() }
    }

    /// A new handle to the value stored under `key`, if there is one.
    pub fn get(&self, key: &str) -> (r: Option<Arc<V>>)
        ensures
            r == lookup(self@, key@),
    {
        match self.entries.get(key) {
            None => None,
            Some(value) => Some(value.clone()),
        }
    }

    /// Stores `value` under `key`, replacing what was stored there.
    pub fn put(&mut self, key: String, value: Arc<V>)
        ensures
            final(self)@ == old(self)@.insert(key@, value),
    {
        self.entries.insert(key, value);
    }

    /// Removes the entry of `key`; nothing changes where there is none.
    pub fn del(&mut self, key: &str)
        ensures
            final(self)@ == old(self)@.remove(key@),
    {
        self.entries.remove(key);
    }
}

} // verus!
