//! The registry's laws, stated over the models that the operations' contracts
//! use: the allocator's counter, and a store's map of records.

use vstd::prelude::*;

verus! {

/// The identifiers issued by consecutive allocations starting from counter
/// value `c0`: the i-th allocation returns `c0 + i + 1`. This is the shape
/// `IdAllocator::next` ensures call after call, and `IdAllocator::reopen`
/// keeps the counter, so one run may span a restart.
pub open spec fn allocation_run(c0: u64, ids: Seq<u64>) -> bool {
    forall|i: int| 0 <= i < ids.len() ==> ids[i] == c0 + i + 1
}

/// Allocator monotonicity: along any run of allocations the identifiers are
/// strictly increasing, so no identifier is ever issued twice.
pub proof fn lemma_allocation_ids_strictly_increasing(c0: u64, ids: Seq<u64>)
    requires
        allocation_run(c0, ids),
    ensures
        forall|i: int, j: int| 0 <= i < j < ids.len() ==> ids[i] < ids[j],
        forall|i: int, j: int|
            0 <= i < ids.len() && 0 <= j < ids.len() && i != j ==> ids[i] != ids[j],
{
    assert forall|i: int, j: int| 0 <= i < j < ids.len() implies ids[i] < ids[j] by {
        assert(ids[i] == c0 + i + 1);
        assert(ids[j] == c0 + j + 1);
    }
}

/// Store round-trip: a lookup right after a put at the same key yields
/// exactly the record that was put. `put` ensures the store's map gains the
/// record by `insert`, and `get` returns the map's record at the key.
pub proof fn lemma_store_round_trip<T>(m: Map<u64, T>, key: u64, record: T)
    ensures
        m.insert(key, record).contains_key(key),
        m.insert(key, record)[key] == record,
{
}

/// Absence: a key that no put of a run ever wrote is absent afterwards, so a
/// lookup there returns absence, never a default record. `apply_puts` is the
/// map left by running a sequence of puts in order.
pub open spec fn apply_puts<T>(m: Map<u64, T>, ops: Seq<(u64, T)>) -> Map<u64, T>
    decreases ops.len(),
{
    if ops.len() == 0 {
        m
    } else {
        apply_puts(m, ops.drop_last()).insert(ops.last().0, ops.last().1)
    }
}

/// A key absent at the start and written by no put of the run is absent at
/// the end.
pub proof fn lemma_never_written_absent<T>(m: Map<u64, T>, ops: Seq<(u64, T)>, key: u64)
    requires
        !m.contains_key(key),
        forall|i: int| 0 <= i < ops.len() ==> (#[trigger] ops[i]).0 != key,
    ensures
        !apply_puts(m, ops).contains_key(key),
    decreases ops.len(),
{
    if ops.len() > 0 {
        lemma_never_written_absent(m, ops.drop_last(), key);
        assert(ops[ops.len() - 1].0 != key);
    }
}

/// Overwrite semantics: a put at a key followed by another put at the same
/// key leaves exactly the second record there — the two puts collapse to the
/// last one.
pub proof fn lemma_overwrite<T>(m: Map<u64, T>, key: u64, first: T, second: T)
    ensures
        m.insert(key, first).insert(key, second) == m.insert(key, second),
        m.insert(key, first).insert(key, second)[key] == second,
{
    assert(m.insert(key, first).insert(key, second) =~= m.insert(key, second));
}

} // verus!
