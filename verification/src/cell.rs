//! The access cell: one value of a fixed-size, copyable type at a stable
//! location, read and written exactly once per operation and in program
//! order.
//!
//! The contracts here describe what a read returns and what a write leaves
//! behind; that is everything the verifier can observe of an access. A build
//! for a real target routes `get` and `set` through the platform's volatile
//! access primitives, so that the optimizer can neither reorder, merge nor
//! drop them — the cell itself adds no synchronization between execution
//! contexts, by design: the aliasing schemes of the neighbouring modules
//! exist precisely so that independent bit-level updates need no lock.

use vstd::prelude::*;

verus! {

/// A cell with ordered, non-elidable read / write operations.
pub struct VolatileCell<T> {
    value: T,
}

impl<T> View for VolatileCell<T> {
    type V = T;

    closed spec fn view(&self) -> T {
        self.value
    }
}

impl<T> VolatileCell<T> {
    /// The cell `set` leaves behind: the same cell, now holding `value`.
    pub closed spec fn spec_set(self, value: T) -> VolatileCell<T> {
        VolatileCell { value }
    }

    /// Creates a new cell containing the given value.
    pub fn new(value: T) -> (cell: Self)
        ensures
            cell@ == value,
    {
        VolatileCell { value }
    }

    /// Returns a copy of the contained value.
    pub fn get(&self) -> (value: T) where T: Copy
        ensures
            value == self@,
    {
        self.value
    }

    /// Sets the contained value.
    pub fn set(&mut self, value: T) where T: Copy
        ensures
            *final(self) == old(self).spec_set(value),
            final(self)@ == value,
    {
        self.value = value;
    }

    /// Grants access to the underlying storage, for callers that need the
    /// cell's location rather than its value.
    pub fn as_ptr(&self) -> (r: &T)
        ensures
            *r == self@,
    {
        &self.value
    }
}

/// Round trip: a `get` that follows `set(value)` returns exactly `value`,
/// whatever the cell held before.
pub proof fn lemma_set_get_round_trip<T>(cell: VolatileCell<T>, value: T)
    ensures
        cell.spec_set(value)@ == value,
{
}

} // verus!
