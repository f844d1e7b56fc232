//! The trusted boundary to the durable storage structures of
//! `ic_stable_structures`. The counter cell and the two maps live in segments
//! of one memory, handed out by a `MemoryManager` under distinct handles that
//! never alias; each segment persists independently of the in-memory handle,
//! and reinitializing a structure from its segment yields the durably
//! committed state, which is how a process restart is modelled (and
//! exercised) here.
//!
//! Everything below is believed, not verified: the contracts state what the
//! crate's source shows of `Cell`, `BTreeMap` and the memory manager.

use vstd::prelude::*;
use ic_stable_structures::{DefaultMemoryImpl, StableBTreeMap, StableCell};
use ic_stable_structures::memory_manager::{MemoryId, MemoryManager, VirtualMemory};

verus! {

/// A durable cell holding one `u64`, backed by
/// `ic_stable_structures::Cell` over its own memory segment.
#[verifier::external_body]
pub struct IdCell {
    inner: StableCell<u64, VirtualMemory<DefaultMemoryImpl>>,
}

/// The value the durable cell currently holds.
pub uninterp spec fn id_cell_value(c: IdCell) -> u64;

/// A durable sorted map from `u64` keys to byte blobs, backed by
/// `ic_stable_structures::BTreeMap` over its own memory segment.
#[verifier::external_body]
pub struct StableByteMap {
    inner: StableBTreeMap<u64, Vec<u8>, VirtualMemory<DefaultMemoryImpl>>,
}

/// The key-to-bytes association the durable map currently holds.
pub uninterp spec fn byte_map_contents(m: StableByteMap) -> Map<u64, Seq<u8>>;

/// Relies on `ic_stable_structures::memory_manager::MemoryManager`: segments
/// handed out under distinct `MemoryId`s never alias, so the cell and the two
/// maps are independent. Relies on `Cell::init` and `BTreeMap::init` over
/// segments that hold no data yet: the cell takes its default value, zero,
/// and each map starts empty.
#[verifier::external_body]
pub fn backing_new() -> (r: (IdCell, StableByteMap, StableByteMap))
    ensures
        id_cell_value(r.0) == 0,
        forall|k: u64| !byte_map_contents(r.1).contains_key(k),
        forall|k: u64| !byte_map_contents(r.2).contains_key(k),
{
    let manager = MemoryManager::init(DefaultMemoryImpl::default());
    let cell = StableCell::init(manager.get(MemoryId::new(0)), 0);
    let attendance = StableBTreeMap::init(manager.get(MemoryId::new(5)));
    let employees = StableBTreeMap::init(manager.get(MemoryId::new(6)));
    (IdCell { inner: cell }, StableByteMap { inner: attendance }, StableByteMap {
        inner: employees,
    })
}

/// Relies on `ic_stable_structures::Cell::get`: returns the value the cell
/// holds.
#[verifier::external_body]
pub fn id_cell_get(c: &IdCell) -> (v: u64)
    ensures
        v == id_cell_value(*c),
{
    *c.inner.get()
}

/// Relies on `ic_stable_structures::Cell::set`: writes the value to the
/// segment before updating the cell, so the cell holds it durably afterwards.
/// An eight-byte value always fits, so the write cannot be rejected.
#[verifier::external_body]
pub fn id_cell_set(c: &mut IdCell, v: u64)
    ensures
        id_cell_value(*final(c)) == v,
{
    let _ = c.inner.set(v);
}

/// Relies on `ic_stable_structures::Cell::into_memory` and `Cell::init`:
/// reinitializing a cell from the segment it wrote to yields the durably
/// stored value, not the default. This models a process restart.
#[verifier::external_body]
pub fn id_cell_reopen(c: IdCell) -> (r: IdCell)
    ensures
        id_cell_value(r) == id_cell_value(c),
{
    IdCell { inner: StableCell::init(c.inner.into_memory(), 0) }
}

/// Relies on `ic_stable_structures::BTreeMap::insert`: stores the value under
/// the key, overwriting any previous value, and persists the change before
/// returning. A `Vec<u8>` value is unbounded for the map, so no size check
/// can reject it.
#[verifier::external_body]
pub fn byte_map_insert(m: &mut StableByteMap, key: u64, value: Vec<u8>)
    ensures
        byte_map_contents(*final(m)) == byte_map_contents(*old(m)).insert(key, value@),
{
    let _ = m.inner.insert(key, value);
}

/// Relies on `ic_stable_structures::BTreeMap::get`: returns the value stored
/// under the key, or `None` when the key is absent.
#[verifier::external_body]
pub fn byte_map_get(m: &StableByteMap, key: u64) -> (r: Option<Vec<u8>>)
    ensures
        match r {
            Some(v) => byte_map_contents(*m).contains_key(key) && v@ == byte_map_contents(
                *m,
            )[key],
            None => !byte_map_contents(*m).contains_key(key),
        },
{
    m.inner.get(&key)
}

/// Relies on `ic_stable_structures::BTreeMap::into_memory` and
/// `BTreeMap::init`: reinitializing a map from the segment it wrote to yields
/// the durably stored entries. This models a process restart.
#[verifier::external_body]
pub fn byte_map_reopen(m: StableByteMap) -> (r: StableByteMap)
    ensures
        byte_map_contents(r) == byte_map_contents(m),
{
    StableByteMap { inner: StableBTreeMap::init(m.inner.into_memory()) }
}

} // verus!
