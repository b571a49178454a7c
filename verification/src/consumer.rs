//! A thread-safe and lock-free ring buffer consumer.
//!
//! Reads from head -> tail. When an entry is no longer needed, it can be
//! committed, where the head is incremented. The tail is assumed to be
//! incremented by an external process (the kernel).

use std::sync::atomic::{AtomicU32, Ordering};

use crate::errors::RingBufferError;
use crate::layout::{
    check_ring_layout, construction_error, slot_of, slot_position, valid_ring_layout,
};
use crate::protocol::{commit_gate, consumer_reserve_gate, not_full_gate};
use crate::reserved::ReservedEntry;
use vstd::prelude::*;
use vstd::slice::slice_index_get;

verus! {

/// A thread-safe and lock-free ring buffer consumer.
///
/// Reads from head -> tail. When an entry is no longer needed, it can be
/// committed, where the head is incremented. The tail is assumed to be
/// incremented by an external process (the kernel).
#[derive(Debug)]
pub struct RingBufferConsumer<'ring, T> {
    head: &'ring AtomicU32,
    tail: &'ring AtomicU32,
    uncommitted_head: AtomicU32,
    entries: &'ring [T],
    mask: u32,
    shift: u32,
}

impl<'ring, T> RingBufferConsumer<'ring, T> {
    /// The entries slice the consumer reads from.
    pub closed spec fn spec_entries(&self) -> Seq<T> {
        self.entries@
    }

    /// The index mask, `entries.len() - 1`.
    pub closed spec fn spec_mask(&self) -> u32 {
        self.mask
    }

    /// The slot shift: zero normally, one when a logical entry spans two
    /// physical slots.
    pub closed spec fn spec_shift(&self) -> u32 {
        self.shift
    }

    /// Well-formedness: the layout was validated at construction.
    pub closed spec fn wf(&self) -> bool {
        &&& valid_ring_layout(self.entries@.len(), self.mask)
        &&& self.shift <= 1
    }

    /// A well-formed consumer has a validated layout.
    pub proof fn lemma_wf_layout(&self)
        requires
            self.wf(),
        ensures
            valid_ring_layout(self.spec_entries().len(), self.spec_mask()),
            self.spec_shift() <= 1,
    {
    }

    /// Creates a new `RingBufferConsumer`, taking existing indices for the
    /// head and tail.
    ///
    /// # Errors
    /// - if `entries.len()` is greater than `u32::MAX`, the
    ///   `EntriesSliceTooLong` error is returned.
    /// - `entries.len()` must be a power of two. If this is not the case,
    ///   the `LengthNotPowerOfTwo` error is returned.
    /// - `mask` must represent bits of a valid index into `entries`. If
    ///   this is not the case, the `InvalidMaskValue` error is returned.
    pub fn new(
        entries: &'ring [T],
        head: &'ring AtomicU32,
        tail: &'ring AtomicU32,
        mask: u32,
    ) -> (r: Result<Self, RingBufferError>)
        ensures
            r is Ok <==> valid_ring_layout(entries@.len(), mask),
            r is Ok ==> ({
                let c = r->Ok_0;
                &&& c.wf()
                &&& c.spec_entries() == entries@
                &&& c.spec_mask() == mask
                &&& c.spec_shift() == 0
            }),
            r is Err ==> r->Err_0 == construction_error(entries@.len(), mask),
    {
        Self::new_internal(entries, head, tail, mask, false)
    }

    /// Creates a new `RingBufferConsumer` for large objects that span two
    /// entries, taking existing indices for the head and tail.
    ///
    /// # Errors
    /// - if `entries.len()` is greater than `u32::MAX`, the
    ///   `EntriesSliceTooLong` error is returned.
    /// - `entries.len()` must be a power of two. If this is not the case,
    ///   the `LengthNotPowerOfTwo` error is returned.
    /// - `mask` must represent bits of a valid index into `entries`. If
    ///   this is not the case, the `InvalidMaskValue` error is returned.
    pub fn new_big(
        entries: &'ring [T],
        head: &'ring AtomicU32,
        tail: &'ring AtomicU32,
        mask: u32,
    ) -> (r: Result<Self, RingBufferError>)
        ensures
            r is Ok <==> valid_ring_layout(entries@.len(), mask),
            r is Ok ==> ({
                let c = r->Ok_0;
                &&& c.wf()
                &&& c.spec_entries() == entries@
                &&& c.spec_mask() == mask
                &&& c.spec_shift() == 1
            }),
            r is Err ==> r->Err_0 == construction_error(entries@.len(), mask),
    {
        Self::new_internal(entries, head, tail, mask, true)
    }

    fn new_internal(
        entries: &'ring [T],
        head: &'ring AtomicU32,
        tail: &'ring AtomicU32,
        mask: u32,
        big: bool,
    ) -> (r: Result<Self, RingBufferError>)
        ensures
            r is Ok <==> valid_ring_layout(entries@.len(), mask),
            r is Ok ==> ({
                let c = r->Ok_0;
                &&& c.wf()
                &&& c.spec_entries() == entries@
                &&& c.spec_mask() == mask
                &&& c.spec_shift() == if big {
                    1u32
                } else {
                    0u32
                }
            }),
            r is Err ==> r->Err_0 == construction_error(entries@.len(), mask),
    {
        if let Err(e) = check_ring_layout(entries.len(), mask) {
            return Err(e);
        }
        // No reservation exists yet, so the shadow head may be seeded from
        // a relaxed read of the visible head.
        let uncommitted_head = AtomicU32::new(head.load(Ordering::Relaxed));
        Ok(
            RingBufferConsumer {
                head,
                tail,
                uncommitted_head,
                entries,
                mask,
                shift: if big {
                    1
                } else {
                    0
                },
            },
        )
    }

    /// Get the size of the ring buffer: the number of logical entries it
    /// holds.
    #[must_use]
    pub fn size(&self) -> (r: usize)
        requires
            self.wf(),
        ensures
            self.spec_shift() == 0 ==> r == self.spec_entries().len(),
            self.spec_shift() == 1 ==> r == self.spec_entries().len() / 2,
    {
        let len = self.entries.len();
        proof {
            let s = self.shift;
            assert(s == 0 ==> (len >> s) == len) by (bit_vector);
            assert(s == 1 ==> (len >> s) == len / 2) by (bit_vector);
        }
        len >> self.shift
    }

    /// Get the number of available entries between tail and head. This
    /// represents the number of entries that can currently be reserved.
    ///
    /// The counters move underneath concurrent producers, consumers, and
    /// any external party sharing the ring, so no more can be promised of
    /// the result than that it is the wrapping difference of the two
    /// counter values this call read.
    #[must_use]
    pub fn available(&self) -> (r: u32) {
        let tail = self.tail.load(Ordering::Acquire);
        let head = self.head.load(Ordering::Acquire);
        crate::wrap::ring_occupancy(head, tail)
    }

    /// Determines if the ring buffer is empty, or has no more elements to
    /// reserve.
    ///
    /// Despite its name, this reports "not yet full": it is true while the
    /// occupancy is below the physical entries length, not when no items
    /// are present.
    #[must_use]
    pub fn empty(&self) -> (r: bool) {
        not_full_gate(self.available(), self.entries.len())
    }

    /// Reserves an entry from the head of the ring buffer.
    ///
    /// Produces `Some` if an entry was successfully reserved. Otherwise
    /// returns `None` if nothing has been published yet, another thread
    /// reserved the same entry first, or the reservation's slot would fall
    /// outside the entries slice (a defensive bound on the doubled
    /// big-mode position).
    ///
    /// A returned handle addresses the slot its index selects through the
    /// mask and shift layout.
    #[must_use]
    pub fn reserve(&self) -> (r: Option<ReservedEntry<'ring, T>>)
        requires
            self.wf(),
        ensures
            r is Some ==> ({
                let h = r->Some_0;
                let pos = slot_of(h.spec_index(), self.spec_entries().len(), self.spec_shift());
                &&& pos < self.spec_entries().len()
                &&& h.spec_entry() == self.spec_entries()[pos as int]
            }),
    {
        let head = self.uncommitted_head.load(Ordering::Acquire);
        let tail = self.tail.load(Ordering::Acquire);

        if !consumer_reserve_gate(head, tail) {
            None
        } else {
            match slot_position(head, self.mask, self.shift, self.entries.len()) {
                None => None,
                Some(pos) => {
                    let entry = slice_index_get(self.entries, pos);
                    match self.uncommitted_head.compare_exchange(
                        head,
                        head.wrapping_add(1),
                        Ordering::Release,
                        Ordering::Relaxed,
                    ) {
                        Err(_) => None,
                        Ok(_) => Some(ReservedEntry::new(head, entry)),
                    }
                },
            }
        }
    }

    /// Commit the reserved entry.
    ///
    /// Ensures the reserved entry is the next to be committed, then
    /// advances the head of the ring, making space available to the
    /// producer. The handle is consumed either way.
    ///
    /// # Errors
    /// - If `entry` is not the next entry to be committed, either because
    ///   the same thread reserved and committed entries out of order, or
    ///   another thread reserved the next entry, returns
    ///   `CommitOutOfOrder` and leaves the head unchanged.
    pub fn commit(&self, entry: ReservedEntry<'ring, T>) -> (r: Result<(), RingBufferError>)
        ensures
            r is Err ==> r->Err_0 == RingBufferError::CommitOutOfOrder,
    {
        let visible = self.head.load(Ordering::Acquire);
        match commit_gate(entry.index, visible) {
            Err(e) => Err(e),
            Ok(()) => {
                let _ = self.head.fetch_add(1, Ordering::Release);
                Ok(())
            },
        }
    }
}

} // verus!
