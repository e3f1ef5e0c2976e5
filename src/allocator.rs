//! The sequential slot allocator: a counter that hands out ascending slots.
use vstd::prelude::*;

verus! {

/// The allocator's state: the next slot that has not been handed out.
/// Loading it from and saving it to its backing record is the caller's part;
/// the load, the batch and the save must run under one lock so that two
/// batches never start from the same value.
#[derive(Debug, Clone, PartialEq, Eq)]
pub struct SlotAllocator {
    pub next: u64,
}

impl SlotAllocator {
    /// An allocator whose next slot is `next`.
    pub fn new(next: u64) -> (r: SlotAllocator)
        ensures
            r.next == next,
    {
        SlotAllocator { next }
    }

    /// Hands out the current slot and advances the counter by one.
    pub fn next_slot(&mut self) -> (r: u64)
        requires
            old(self).next < u64::MAX,
        ensures
            r == old(self).next,
            final(self).next == old(self).next + 1,
    {
        let r = self.next;
        self.next = self.next + 1;
        r
    }

    /// Whether `count` more slots can be handed out without the counter
    /// leaving its range.
    pub fn has_room_for(&self, count: usize) -> (r: bool)
        ensures
            r == (self.next + count <= u64::MAX),
    {
        count as u64 <= u64::MAX - self.next
    }
}

} // verus!
