//! Handles to one table shared behind a reader-writer lock.
//!
//! Each operation of a handle takes the lock once, performs exactly one step
//! of [`Table`] (whose contracts say what the step does to the mapping) and
//! releases the lock, so every step is atomic with respect to all others.
//! Other handles may change the table between two calls; what holds across
//! calls and across handles is the entry rule that the lock keeps as its
//! invariant. No verified step can panic while it holds the lock, so the lock
//! is never left held by a failed writer.

use crate::table::Table;
use std::sync::Arc;
use vstd::prelude::*;
use vstd::rwlock::{RwLock, RwLockPredicate};

verus! {

/// Whether every entry of `m` is one that `allowed` accepts.
pub open spec fn obeys<V>(m: Map<Seq<char>, Arc<V>>, allowed: spec_fn(Seq<char>, V) -> bool) -> bool {
    forall|k: Seq<char>| #[trigger] m.contains_key(k) ==> allowed(k, *m[k])
}

/// The invariant of the lock that guards a shared table: each entry is one
/// that the rule accepts. Every writer must keep it, so every reader may rely
/// on it, whatever other handles do meanwhile.
#[verifier::reject_recursive_types(V)]
pub struct EntryRule<V> {
    pub allowed: Ghost<spec_fn(Seq<char>, V) -> bool>,
}

impl<V> RwLockPredicate<Table<V>> for EntryRule<V> {
    open spec fn inv(self, t: Table<V>) -> bool {
        obeys(t@, self.allowed@)
    }
}

/// A handle to a table shared by all its clones. Reads take the lock shared,
/// writes take it exclusive; each operation holds it for one step of the
/// table and releases it before it returns.
#[verifier::reject_recursive_types(V)]
pub struct ParallelMap<V> {
    m: Arc<RwLock<Table<V>, EntryRule<V>>>,
}

impl<V> ParallelMap<V> {
    /// The entry rule that this handle's table keeps at all times.
    pub closed spec fn rule(&self) -> spec_fn(Seq<char>, V) -> bool {
        self.m.pred().allowed@
    }

    /// Whether `self` and `other` reach the same table through the same lock.
    pub closed spec fn shares_table_with(&self, other: &Self) -> bool {
        *self.m == *other.m
    }

    /// A handle to a new, empty table whose entries must obey `allowed`.
    pub fn with_rule(Ghost(allowed): Ghost<spec_fn(Seq<char>, V) -> bool>) -> (r: Self)
        ensures
            r.rule() == allowed,
    {
        let t = Table::new();
        let lock = RwLock::new(t, Ghost(EntryRule { allowed: Ghost(allowed) }));
        ParallelMap { m: Arc::new(lock) }
    }

    /// A handle to a new, empty table that takes any entry.
    pub fn new() -> (r: Self)
        ensures
            forall|k: Seq<char>, v: V| #[trigger] (r.rule())(k, v),
    {
        Self::with_rule(Ghost(|k: Seq<char>, v: V| true))
    }

    /// Stores `value` under `key`, replacing what was stored there, under the
    /// exclusive lock.
    pub fn put(&mut self, key: String, value: Arc<V>)
        requires
            (old(self).rule())(key@, *value),
        ensures
            *final(self) == *old(self),
    {
        let (mut t, handle) = self.m.acquire_write();
        t.put(key, value);
        handle.release_write(t);
    }

    /// A new handle to the value stored under `key`, if there is one, read
    /// under the shared lock.
    pub fn get(&self, key: &str) -> (r: Option<Arc<V>>)
        ensures
            r matches Some(v) ==> (self.rule())(key@, *v),
    {
        let handle = self.m.acquire_read();
        let r = handle.borrow().get(key);
        handle.release_read();
        r
    }

    /// Removes the entry of `key`, if any, under the exclusive lock.
    pub fn del(&mut self, key: &str)
        ensures
            *final(self) == *old(self),
    {
        let (mut t, handle) = self.m.acquire_write();
        t.del(key);
        handle.release_write(t);
    }
}

/// Handles that reach the same table hold it to the same entry rule, so what
/// a put through one of them may store is what a get through the other may
/// hand out.
pub proof fn shared_handles_agree<V>(a: ParallelMap<V>, b: ParallelMap<V>)
    requires
        a.shares_table_with(&b),
    ensures
        a.rule() == b.rule(),
        b.shares_table_with(&a),
{
}

impl<V> Clone for ParallelMap<V> {
    /// Another handle to the same table; the table is not copied.
    fn clone(&self) -> (r: Self)
        ensures
            r.shares_table_with(self),
            r.rule() == self.rule(),
    {
        ParallelMap { m: Arc::clone(&self.m) }
    }
}

} // verus!
