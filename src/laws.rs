use crate::table::{lookup, Table};
use std::sync::Arc;
use vstd::prelude::*;

verus! {

/// One step on a table's mapping: `(key, Some(value))` is a put, `(key, None)`
/// a delete.
pub open spec fn apply_op<V>(m: Map<Seq<char>, Arc<V>>, op: (Seq<char>, Option<Arc<V>>)) -> Map<
    Seq<char>,
    Arc<V>,
> {
    match op.1 {
        Some(v) => m.insert(op.0, v),
        None => m.remove(op.0),
    }
}

/// The mapping after the steps `ops`, in order, starting from `m`.
pub open spec fn replay<V>(m: Map<Seq<char>, Arc<V>>, ops: Seq<(Seq<char>, Option<Arc<V>>)>) -> Map<
    Seq<char>,
    Arc<V>,
>
    decreases ops.len(),
{
    if ops.len() == 0 {
        m
    } else {
        replay(apply_op(m, ops[0]), ops.drop_first())
    }
}

/// Whether none of the steps `ops` puts or deletes `key`.
pub open spec fn leaves_key<V>(ops: Seq<(Seq<char>, Option<Arc<V>>)>, key: Seq<char>) -> bool {
    forall|i: int| 0 <= i < ops.len() ==> (#[trigger] ops[i]).0 != key
}

/// Whether none of the steps `ops` puts a value under `key`.
pub open spec fn never_puts<V>(ops: Seq<(Seq<char>, Option<Arc<V>>)>, key: Seq<char>) -> bool {
    forall|i: int| 0 <= i < ops.len() && (#[trigger] ops[i]).0 == key ==> ops[i].1 is None
}

proof fn lemma_untouched_key_kept<V>(
    m: Map<Seq<char>, Arc<V>>,
    ops: Seq<(Seq<char>, Option<Arc<V>>)>,
    key: Seq<char>,
)
    requires
        leaves_key(ops, key),
    ensures
        lookup(replay(m, ops), key) == lookup(m, key),
    decreases ops.len(),
{
    if ops.len() > 0 {
        let rest = ops.drop_first();
        assert forall|i: int| 0 <= i < rest.len() implies (#[trigger] rest[i]).0 != key by {
            assert(rest[i] == ops[i + 1]);
        }
        assert(ops[0].0 != key);
        lemma_untouched_key_kept(apply_op(m, ops[0]), rest, key);
    }
}

proof fn lemma_absent_stays_absent<V>(
    m: Map<Seq<char>, Arc<V>>,
    ops: Seq<(Seq<char>, Option<Arc<V>>)>,
    key: Seq<char>,
)
    requires
        !m.contains_key(key),
        never_puts(ops, key),
    ensures
        lookup(replay(m, ops), key) is None,
    decreases ops.len(),
{
    if ops.len() > 0 {
        let rest = ops.drop_first();
        assert forall|i: int| 0 <= i < rest.len() && (#[trigger] rest[i]).0 == key implies rest[i].1 is None by {
            assert(rest[i] == ops[i + 1]);
        }
        assert(0 <= 0 < ops.len() && ops[0] == ops[0]);
        lemma_absent_stays_absent(apply_op(m, ops[0]), rest, key);
    }
}

/// After `put(key, value)`, `get(key)` gives `value`, and keeps giving it
/// through any later steps that neither put nor delete `key`.
pub proof fn put_then_get<V>(
    t: Table<V>,
    key: Seq<char>,
    value: Arc<V>,
    later: Seq<(Seq<char>, Option<Arc<V>>)>,
)
    requires
        leaves_key(later, key),
    ensures
        lookup(t@.insert(key, value), key) == Some(value),
        lookup(replay(t@.insert(key, value), later), key) == Some(value),
{
    lemma_untouched_key_kept(t@.insert(key, value), later, key);
}

/// After `del(key)`, `get(key)` gives nothing, whatever the table held before.
pub proof fn delete_removes<V>(t: Table<V>, key: Seq<char>)
    ensures
        lookup(t@.remove(key), key) is None,
{
}

/// On a table built from empty by any steps, a key that no step put is absent.
pub proof fn absent_by_default<V>(ops: Seq<(Seq<char>, Option<Arc<V>>)>, key: Seq<char>)
    requires
        never_puts(ops, key),
    ensures
        lookup(replay(Map::<Seq<char>, Arc<V>>::empty(), ops), key) is None,
{
    lemma_absent_stays_absent(Map::<Seq<char>, Arc<V>>::empty(), ops, key);
}

/// `put(key, first)` then `put(key, second)` leaves the table as `put(key,
/// second)` alone would: `get(key)` gives `second`, and nothing of `first`
/// remains.
pub proof fn overwrite_replaces<V>(t: Table<V>, key: Seq<char>, first: Arc<V>, second: Arc<V>)
    ensures
        t@.insert(key, first).insert(key, second) == t@.insert(key, second),
        lookup(t@.insert(key, first).insert(key, second), key) == Some(second),
{
    assert(t@.insert(key, first).insert(key, second) =~= t@.insert(key, second));
}

} // verus!
