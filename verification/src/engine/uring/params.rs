//! The values exchanged with the kernel when a ring is set up: flag bits,
//! detected capabilities and the parameter block.

use vstd::prelude::*;
use crate::engine::uring::op::OpCode;

verus! {

/// Setup flag: the completion ring size is given by the caller.
pub const SETUP_CQSIZE: u32 = 0x8;

/// Setup flag: clamp the ring sizes instead of failing.
pub const SETUP_CLAMP: u32 = 0x10;

/// Setup flag: keep submitting after an entry fails.
pub const SETUP_SUBMIT_ALL: u32 = 0x80;

/// Setup flag: run task work cooperatively.
pub const SETUP_COOP_TASKRUN: u32 = 0x100;

/// Setup flag: report pending task work in the submission ring flags.
pub const SETUP_TASKRUN_FLAG: u32 = 0x200;

/// Setup flag: submission entries are twice as wide.
pub const SETUP_SQE128: u32 = 0x400;

/// Setup flag: completion entries are twice as wide.
pub const SETUP_CQE32: u32 = 0x800;

/// Setup flag: a single task submits.
pub const SETUP_SINGLE_ISSUER: u32 = 0x1000;

/// Setup flag: defer task work until the ring is entered for events.
pub const SETUP_DEFER_TASKRUN: u32 = 0x2000;

/// Every setup flag the engine asks for when the kernel knows it.
pub const WANTED_SETUP_FLAGS: u32 = SETUP_CQSIZE | SETUP_CLAMP | SETUP_SUBMIT_ALL
    | SETUP_COOP_TASKRUN | SETUP_TASKRUN_FLAG | SETUP_SINGLE_ISSUER | SETUP_DEFER_TASKRUN;

/// Feature: both rings live in one memory map.
pub const FEATURE_SINGLE_MMAP: u32 = 0x1;

/// Feature: a timeout can accompany the call that enters the ring.
pub const FEATURE_EXT_ARG: u32 = 0x100;

/// Enter flag: wait for completions.
pub const ENTER_GETEVENTS: u32 = 0x1;

/// Submission ring flag: the completion ring overflowed.
pub const SQ_CQ_OVERFLOW: u32 = 0x2;

/// Submission ring flag: task work is pending.
pub const SQ_TASKRUN: u32 = 0x4;

/// How many submission entries the engine asks for.
pub const SQ_ENTRIES: u32 = 0x100;

/// How many completion entries the engine asks for, when it may ask.
pub const CQ_ENTRIES: u32 = 0x2000;

/// Size in bytes of one submission entry.
pub const SQE_SIZE: u64 = 64;

/// Size in bytes of one completion entry.
pub const CQE_SIZE: u64 = 16;

/// Size in bytes of one slot of the submission index array.
pub const INDEX_SIZE: u64 = 4;

/// Map offset of the submission ring.
pub const OFFSET_SUBMISSION_RING: u64 = 0;

/// Map offset of the completion ring.
pub const OFFSET_COMPLETION_RING: u64 = 0x800_0000;

/// Map offset of the submission entries.
pub const OFFSET_SUBMISSION_ENTRIES: u64 = 0x1000_0000;

/// Whether `bits` has at least one bit of `mask`.
pub open spec fn spec_intersects(bits: u32, mask: u32) -> bool {
    bits & mask != 0
}

/// Whether `bits` has every bit of `mask`.
pub open spec fn spec_contains(bits: u32, mask: u32) -> bool {
    bits & mask == mask
}

/// Whether `bits` has at least one bit of `mask`.
pub fn intersects(bits: u32, mask: u32) -> (res: bool)
    ensures
        res == spec_intersects(bits, mask),
{
    bits & mask != 0
}

/// Whether `bits` has every bit of `mask`.
pub fn contains(bits: u32, mask: u32) -> (res: bool)
    ensures
        res == spec_contains(bits, mask),
{
    bits & mask == mask
}

/// What a probe of the running kernel found.
#[derive(Clone, Copy, Debug, PartialEq, Eq, Structural)]
pub struct IoRingFeatures {
    /// One bit per supported operation, at the position of its code.
    pub ops: u64,
    /// The setup flags the kernel accepts.
    pub setup_flags: u32,
    /// The features the kernel reports.
    pub features: u32,
}

impl IoRingFeatures {
    /// Whether the kernel can run `op` through the ring.
    pub open spec fn spec_opcode_supported(self, op: OpCode) -> bool {
        self.ops & (1u64 << op.spec_code()) != 0
    }

    /// Whether the kernel can run `op` through the ring.
    pub fn opcode_supported(&self, op: OpCode) -> (res: bool)
        ensures
            res == self.spec_opcode_supported(op),
    {
        let code: u8 = op.code();
        self.ops & (1u64 << code) != 0
    }

    /// Whether the kernel accepts the setup flag `flag`.
    pub open spec fn spec_setup_flag_supported(self, flag: u32) -> bool {
        spec_intersects(self.setup_flags, flag)
    }

    /// Whether the kernel accepts the setup flag `flag`.
    pub fn setup_flag_supported(&self, flag: u32) -> (res: bool)
        ensures
            res == self.spec_setup_flag_supported(flag),
    {
        intersects(self.setup_flags, flag)
    }

    /// Whether the kernel reports the feature `feature`.
    pub open spec fn spec_feature_supported(self, feature: u32) -> bool {
        spec_intersects(self.features, feature)
    }

    /// Whether the kernel reports the feature `feature`.
    pub fn feature_supported(&self, feature: u32) -> (res: bool)
        ensures
            res == self.spec_feature_supported(feature),
    {
        intersects(self.features, feature)
    }
}

/// Where the kernel put the parts of the submission ring, in bytes from the
/// start of its map.
#[derive(Clone, Copy, Debug, PartialEq, Eq, Structural)]
pub struct SubmissionOffsets {
    pub head: u32,
    pub tail: u32,
    pub ring_mask: u32,
    pub ring_entries: u32,
    pub flags: u32,
    pub dropped: u32,
    pub array: u32,
}

/// Where the kernel put the parts of the completion ring, in bytes from the
/// start of its map.
#[derive(Clone, Copy, Debug, PartialEq, Eq, Structural)]
pub struct CompletionOffsets {
    pub head: u32,
    pub tail: u32,
    pub ring_mask: u32,
    pub ring_entries: u32,
    pub overflow: u32,
    pub cqes: u32,
    pub flags: u32,
}

/// The parameter block of ring setup: what the engine asks for going in, what
/// the kernel granted coming out.
#[derive(Clone, Copy, Debug, PartialEq, Eq, Structural)]
pub struct Parameters {
    pub sq_entries: u32,
    pub cq_entries: u32,
    pub flags: u32,
    pub features: u32,
    pub sq_off: SubmissionOffsets,
    pub cq_off: CompletionOffsets,
}

impl Parameters {
    /// A block with every field zero.
    pub open spec fn spec_zeroed() -> Parameters {
        Parameters {
            sq_entries: 0,
            cq_entries: 0,
            flags: 0,
            features: 0,
            sq_off: SubmissionOffsets {
                head: 0,
                tail: 0,
                ring_mask: 0,
                ring_entries: 0,
                flags: 0,
                dropped: 0,
                array: 0,
            },
            cq_off: CompletionOffsets {
                head: 0,
                tail: 0,
                ring_mask: 0,
                ring_entries: 0,
                overflow: 0,
                cqes: 0,
                flags: 0,
            },
        }
    }

    /// A block with every field zero.
    pub fn zeroed() -> (params: Parameters)
        ensures
            params == Parameters::spec_zeroed(),
    {
        Parameters {
            sq_entries: 0,
            cq_entries: 0,
            flags: 0,
            features: 0,
            sq_off: SubmissionOffsets {
                head: 0,
                tail: 0,
                ring_mask: 0,
                ring_entries: 0,
                flags: 0,
                dropped: 0,
                array: 0,
            },
            cq_off: CompletionOffsets {
                head: 0,
                tail: 0,
                ring_mask: 0,
                ring_entries: 0,
                overflow: 0,
                cqes: 0,
                flags: 0,
            },
        }
    }
}

} // verus!
