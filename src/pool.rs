//! A fixed array of envelope slots handed out round-robin, sized in whole
//! 2 MiB huge-page blocks.
use vstd::prelude::*;

use crate::envelope::{IntentVectorV2, ENVELOPE_BYTES};

verus! {

/// Bytes in one huge page.
pub const HUGE_PAGE_BYTES: usize = 2 * 1024 * 1024;

/// Huge pages needed to hold `bytes` bytes: the quotient rounded up.
pub open spec fn huge_pages_for(bytes: int) -> int {
    if bytes % (HUGE_PAGE_BYTES as int) == 0 {
        bytes / (HUGE_PAGE_BYTES as int)
    } else {
        bytes / (HUGE_PAGE_BYTES as int) + 1
    }
}

/// Preallocated envelopes; `checkout` lends them out in turn.
#[derive(Debug)]
pub struct HugePageEnvelopePool {
    slots: Vec<IntentVectorV2>,
    cursor: usize,
}

impl HugePageEnvelopePool {
    /// The envelopes held, slot by slot.
    pub closed spec fn slots_spec(&self) -> Seq<IntentVectorV2> {
        self.slots@
    }

    /// The slot that the next checkout lends.
    pub closed spec fn cursor_spec(&self) -> nat {
        self.cursor as nat
    }

    /// At least one slot, the cursor on a slot, and the slots' bytes within
    /// what one allocation can hold.
    pub closed spec fn wf(&self) -> bool {
        &&& self.slots@.len() >= 1
        &&& self.cursor < self.slots@.len()
        &&& self.slots@.len() * ENVELOPE_BYTES <= isize::MAX
    }

    /// A pool of `capacity` slots (at least one), each a copy of `seed`.
    pub fn with_capacity(capacity: usize, seed: IntentVectorV2) -> (r: Self)
        requires
            capacity * ENVELOPE_BYTES <= isize::MAX,
        ensures
            r.wf(),
            r.slots_spec().len() == (if capacity == 0 {
                1
            } else {
                capacity
            }),
            forall|i: int| 0 <= i < r.slots_spec().len() ==> #[trigger] r.slots_spec()[i] == seed,
            r.cursor_spec() == 0,
    {
        let count = if capacity == 0 {
            1
        } else {
            capacity
        };
        assert(count * ENVELOPE_BYTES <= isize::MAX) by (nonlinear_arith)
            requires
                count == 1 || count == capacity,
                capacity * ENVELOPE_BYTES <= isize::MAX,
                ENVELOPE_BYTES <= isize::MAX,
        ;
        let mut slots: Vec<IntentVectorV2> = Vec::new();
        let mut i: usize = 0;
        while i < count
            invariant
                i <= count,
                slots@.len() == i,
                forall|k: int| 0 <= k < i ==> #[trigger] slots@[k] == seed,
            decreases count - i,
        {
            slots.push(seed);
            i += 1;
        }
        HugePageEnvelopePool { slots, cursor: 0 }
    }

    /// Number of slots.
    pub fn capacity(&self) -> (r: usize)
        ensures
            r == self.slots_spec().len(),
    {
        self.slots.len()
    }

    /// Huge pages that the slots would fill.
    pub fn approx_hugepage_blocks(&self) -> (r: usize)
        requires
            self.wf(),
        ensures
            r == huge_pages_for(self.slots_spec().len() * ENVELOPE_BYTES),
    {
        let bytes = self.slots.len() * ENVELOPE_BYTES;
        if bytes % HUGE_PAGE_BYTES == 0 {
            bytes / HUGE_PAGE_BYTES
        } else {
            bytes / HUGE_PAGE_BYTES + 1
        }
    }

    /// Lends the slot under the cursor and moves the cursor to the next slot,
    /// wrapping after the last.
    pub fn checkout(&mut self) -> (r: &mut IntentVectorV2)
        requires
            old(self).wf(),
        ensures
            *r == old(self).slots_spec()[old(self).cursor_spec() as int],
            final(self).slots_spec() == old(self).slots_spec().update(
                old(self).cursor_spec() as int,
                *final(r),
            ),
            final(self).cursor_spec() == (old(self).cursor_spec() + 1) % old(
                self,
            ).slots_spec().len(),
            final(self).wf(),
    {
        let idx = self.cursor;
        self.cursor = (self.cursor + 1) % self.slots.len();
        &mut self.slots[idx]
    }
}

} // verus!
