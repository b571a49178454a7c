//! The handle returned by a successful reservation.

use vstd::prelude::*;

verus! {

/// An entry returned as part of a reserve operation.
///
/// The handle ties a reservation's sequence index to a reference into the
/// entries slice. It is an exclusive, single-use capability: passing it to
/// a commit (whether the commit succeeds or fails) consumes it.
#[derive(Debug)]
pub struct ReservedEntry<'ring, T> {
    pub(crate) index: u32,
    pub(crate) entry: &'ring T,
}

impl<'ring, T> ReservedEntry<'ring, T> {
    /// The reservation's sequence index.
    pub closed spec fn spec_index(&self) -> u32 {
        self.index
    }

    /// The entry the reservation addresses.
    pub closed spec fn spec_entry(&self) -> T {
        *self.entry
    }

    pub(crate) fn new(index: u32, entry: &'ring T) -> (r: Self)
        ensures
            r.spec_index() == index,
            r.spec_entry() == *entry,
    {
        ReservedEntry { index, entry }
    }

    /// A reference to the reserved entry.
    pub fn entry(&self) -> (r: &T)
        ensures
            *r == self.spec_entry(),
    {
        self.entry
    }
}

} // verus!
