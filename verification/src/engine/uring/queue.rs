//! The two rings as the runtime sees them: where the next submission goes,
//! and which completions a pass delivers, in what order.

use vstd::prelude::*;
use crate::engine::uring::op::{OpCode, SubmissionEntry};
use crate::engine::uring::params::{
    intersects, spec_intersects, Parameters, SQ_CQ_OVERFLOW, SQ_TASKRUN,
};

verus! {

/// Whether `entries` can be the size of a ring: a power of two.
pub open spec fn spec_is_ring_size(entries: u32) -> bool {
    entries != 0 && entries & ((entries - 1) as u32) == 0
}

/// Whether `entries` can be the size of a ring: a power of two.
pub fn is_ring_size(entries: u32) -> (res: bool)
    ensures
        res == spec_is_ring_size(entries),
{
    entries != 0 && entries & (entries - 1) == 0
}

/// The slot of a ring with mask `mask` that the position `position` falls on.
pub open spec fn spec_slot(position: u32, mask: u32) -> u32 {
    position & mask
}

/// A slot lies within the ring.
pub proof fn lemma_slot_in_ring(position: u32, mask: u32)
    ensures
        spec_slot(position, mask) <= mask,
{
    assert(position & mask <= mask) by (bit_vector);
}

/// Two positions less than a ring apart fall on different slots.
pub proof fn lemma_slots_distinct(start: u32, i: u32, j: u32, capacity: u32)
    requires
        spec_is_ring_size(capacity),
        i < capacity,
        j < capacity,
        i != j,
    ensures
        spec_slot(start.wrapping_add(i), (capacity - 1) as u32) != spec_slot(
            start.wrapping_add(j),
            (capacity - 1) as u32,
        ),
{
    let a = start.wrapping_add(i);
    let b = start.wrapping_add(j);
    assert(a == (start + i) as u32) by (bit_vector)
        requires
            a == (if start + i > 0xffff_ffff {
                (start + i - 0x1_0000_0000) as u32
            } else {
                (start + i) as u32
            }),
    ;
    assert(b == (start + j) as u32) by (bit_vector)
        requires
            b == (if start + j > 0xffff_ffff {
                (start + j - 0x1_0000_0000) as u32
            } else {
                (start + j) as u32
            }),
    ;
    assert(a & ((capacity - 1) as u32) != b & ((capacity - 1) as u32)) by (bit_vector)
        requires
            capacity != 0 && capacity & ((capacity - 1) as u32) == 0,
            i < capacity,
            j < capacity,
            i != j,
            a == (start + i) as u32,
            b == (start + j) as u32,
    ;
}

/// The submission ring: the entries written so far and the position of the
/// next one.
#[derive(Debug)]
pub struct SubmissionQueue {
    /// The position after the last entry written.
    pub tail: u32,
    /// The tail last made visible to the kernel.
    pub ktail: u32,
    /// Turns a position into a slot.
    pub mask: u32,
    /// How many slots the ring has.
    pub capacity: u32,
    /// The slots.
    pub entries: Vec<SubmissionEntry>,
    /// The kernel's index array: which entry each ring slot refers to.
    pub array: Vec<u32>,
}

impl SubmissionQueue {
    /// The ring is as the constructor leaves it and `push` keeps it: a power
    /// of two of slots behind a fitting mask, and an index array that maps
    /// every slot to itself.
    pub open spec fn wf(&self) -> bool {
        &&& spec_is_ring_size(self.capacity)
        &&& self.mask == self.capacity - 1
        &&& self.entries@.len() == self.capacity
        &&& self.array@.len() == self.capacity
        &&& forall|i: int| 0 <= i < self.capacity ==> #[trigger] self.array@[i] == i
    }

    /// The ring the kernel granted in `params`, with nothing written.
    pub fn new(params: &Parameters) -> (sq: SubmissionQueue)
        requires
            spec_is_ring_size(params.sq_entries),
        ensures
            sq.wf(),
            sq.capacity == params.sq_entries,
            sq.tail == 0,
            sq.ktail == 0,
            forall|i: int|
                0 <= i < sq.capacity ==> #[trigger] sq.entries@[i] == SubmissionEntry::spec_new(
                    OpCode::NoOp,
                ),
    {
        let capacity: u32 = params.sq_entries;
        let mut entries: Vec<SubmissionEntry> = Vec::new();
        let mut array: Vec<u32> = Vec::new();
        let mut i: u32 = 0;
        while i < capacity
            invariant
                i <= capacity,
                entries@.len() == i,
                array@.len() == i,
                forall|k: int| 0 <= k < i ==> #[trigger] array@[k] == k,
                forall|k: int|
                    0 <= k < i ==> #[trigger] entries@[k] == SubmissionEntry::spec_new(
                        OpCode::NoOp,
                    ),
            decreases capacity - i,
        {
            entries.push(crate::engine::uring::op::Op::nop());
            array.push(i);
            i += 1;
        }
        SubmissionQueue { tail: 0, ktail: 0, mask: capacity - 1, capacity, entries, array }
    }

    /// Writes `entry` at the tail and advances the tail, which wraps.
    /// Returns the slot written.
    pub fn push(&mut self, entry: SubmissionEntry) -> (slot: u32)
        requires
            old(self).wf(),
        ensures
            final(self).wf(),
            slot == spec_slot(old(self).tail, old(self).mask),
            slot < old(self).capacity,
            final(self).tail == old(self).tail.wrapping_add(1),
            final(self).entries@ == old(self).entries@.update(slot as int, entry),
            final(self).ktail == old(self).ktail,
            final(self).mask == old(self).mask,
            final(self).capacity == old(self).capacity,
            final(self).array@ == old(self).array@,
    {
        let tail: u32 = self.tail;
        self.tail = tail.wrapping_add(1);
        let slot: u32 = tail & self.mask;
        proof {
            lemma_slot_in_ring(tail, self.mask);
        }
        self.entries[slot as usize] = entry;
        slot
    }

    /// Makes every entry written so far visible to the kernel. Returns the
    /// tail to store.
    pub fn sync(&mut self) -> (tail: u32)
        ensures
            tail == old(self).tail,
            *final(self) == (SubmissionQueue { ktail: old(self).tail, ..*old(self) }),
    {
        self.ktail = self.tail;
        self.tail
    }
}

/// One entry of the completion ring.
#[derive(Clone, Copy, Debug, PartialEq, Eq, Structural)]
pub struct CompletionEntry {
    /// The word that the submission carried: the address of the request.
    pub user_data: u64,
    /// The result of the operation, negative for an error.
    pub result: i32,
    /// Flags of the completion.
    pub flags: u32,
}

impl CompletionEntry {
    /// Whom the completion is for and what it brings: the address of the
    /// request to complete, and the value to complete it with.
    pub fn complete(&self) -> (res: (u64, isize))
        ensures
            res == (self.user_data, self.result as isize),
    {
        (self.user_data, self.result as isize)
    }
}

/// The completion ring: its geometry and the head last published.
#[derive(Clone, Copy, Debug, PartialEq, Eq, Structural)]
pub struct CompletionQueue {
    /// The head last made visible to the kernel.
    pub khead: u32,
    /// Turns a position into a slot.
    pub mask: u32,
    /// How many slots the ring has.
    pub capacity: u32,
}

impl CompletionQueue {
    /// The ring has a power of two of slots behind a fitting mask.
    pub open spec fn wf(&self) -> bool {
        &&& spec_is_ring_size(self.capacity)
        &&& self.mask == self.capacity - 1
    }

    /// The ring the kernel granted in `params`.
    pub fn new(params: &Parameters) -> (cq: CompletionQueue)
        requires
            spec_is_ring_size(params.cq_entries),
        ensures
            cq.wf(),
            cq.capacity == params.cq_entries,
            cq.khead == 0,
    {
        CompletionQueue { khead: 0, mask: params.cq_entries - 1, capacity: params.cq_entries }
    }
}

/// Both rings of one `io_uring` instance.
#[derive(Debug)]
pub struct Queue {
    pub submission: SubmissionQueue,
    pub completion: CompletionQueue,
}

impl Queue {
    /// Both rings are well formed.
    pub open spec fn wf(&self) -> bool {
        self.submission.wf() && self.completion.wf()
    }

    /// The rings the kernel granted in `params`.
    pub fn new(params: &Parameters) -> (queue: Queue)
        requires
            spec_is_ring_size(params.sq_entries),
            spec_is_ring_size(params.cq_entries),
        ensures
            queue.wf(),
            queue.submission.capacity == params.sq_entries,
            queue.submission.tail == 0,
            queue.submission.ktail == 0,
            queue.completion.capacity == params.cq_entries,
            queue.completion.khead == 0,
    {
        Queue { submission: SubmissionQueue::new(params), completion: CompletionQueue::new(params) }
    }

    /// Whether the completion ring overflowed, so that the kernel holds
    /// completions back until the ring is entered. `sq_flags` is the flag word
    /// of the submission ring as the kernel last wrote it.
    pub fn needs_flush(sq_flags: u32) -> (res: bool)
        ensures
            res == spec_intersects(sq_flags, SQ_CQ_OVERFLOW),
    {
        intersects(sq_flags, SQ_CQ_OVERFLOW)
    }

    /// Whether the kernel has something that only entering the ring releases:
    /// overflowed completions or deferred task work.
    pub fn needs_enter(sq_flags: u32) -> (res: bool)
        ensures
            res == spec_intersects(sq_flags, SQ_CQ_OVERFLOW | SQ_TASKRUN),
    {
        intersects(sq_flags, SQ_CQ_OVERFLOW | SQ_TASKRUN)
    }
}

} // verus!
