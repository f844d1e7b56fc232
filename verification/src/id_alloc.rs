//! The identifier allocator: one durable counter, incremented and persisted
//! before an identifier is handed out, so no identifier is ever handed out
//! twice — not even across a restart.

use vstd::prelude::*;
use crate::backing::{IdCell, id_cell_value, id_cell_get, id_cell_set, id_cell_reopen};

verus! {

/// Issues unique, strictly increasing identifiers backed by a durable cell.
pub struct IdAllocator {
    cell: IdCell,
}

impl IdAllocator {
    /// The durable counter: the last identifier handed out, or zero when none
    /// has been yet.
    pub closed spec fn counter(self) -> u64 {
        id_cell_value(self.cell)
    }

    /// An allocator over the given durable cell; it resumes from whatever the
    /// cell durably holds. Over a cell holding zero, allocation starts at
    /// one: every identifier is one more than the counter it was drawn from.
    pub fn from_cell(cell: IdCell) -> (a: Self)
        ensures
            a.counter() == id_cell_value(cell),
    {
        IdAllocator { cell }
    }

    /// The current counter value: the last identifier handed out.
    pub fn current(&self) -> (v: u64)
        ensures
            v == self.counter(),
    {
        id_cell_get(&self.cell)
    }

    /// Allocates the next identifier: one more than every identifier this
    /// allocator has ever returned, recorded durably before it is returned.
    pub fn next(&mut self) -> (id: u64)
        requires
            old(self).counter() < u64::MAX,
        ensures
            id == old(self).counter() + 1,
            final(self).counter() == id,
    {
        let current = id_cell_get(&self.cell);
        let id = current + 1;
        id_cell_set(&mut self.cell, id);
        id
    }

    /// Reloads the allocator from its durable region, as a restarted process
    /// would: the counter resumes from the durably recorded value, so
    /// allocation continues strictly above every identifier issued before the
    /// restart.
    pub fn reopen(self) -> (a: Self)
        ensures
            a.counter() == self.counter(),
    {
        IdAllocator { cell: id_cell_reopen(self.cell) }
    }
}

} // verus!
