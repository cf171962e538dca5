//! Planning a ring: what to ask the kernel for, what to warn about, and how
//! large the memory maps of the granted ring are.

use vstd::prelude::*;
use crate::engine::uring::op::OpCode;
use crate::engine::uring::params::{
    contains, intersects, spec_contains, spec_intersects, IoRingFeatures, Parameters, CQE_SIZE,
    CQ_ENTRIES, FEATURE_EXT_ARG, FEATURE_SINGLE_MMAP, INDEX_SIZE, OFFSET_COMPLETION_RING,
    OFFSET_SUBMISSION_ENTRIES, OFFSET_SUBMISSION_RING, SETUP_CLAMP, SETUP_CQE32, SETUP_SQE128,
    SQE_SIZE, SQ_ENTRIES, WANTED_SETUP_FLAGS,
};
use crate::error::{Error, OsError, ENOMEM, ENOSYS};

verus! {

/// The part of the interface that leans on an operation.
#[derive(Clone, Copy, Debug, PartialEq, Eq, Structural)]
pub enum FeatureArea {
    Files,
    Sockets,
}

/// What the lack of an operation means for the user.
#[derive(Clone, Copy, Debug, PartialEq, Eq, Structural)]
pub enum OpNotice {
    /// The operation runs synchronously and may block.
    MayBlock,
    /// A plain system call stands in for the operation.
    SyscallFallback,
    /// Features of the named area, if one is named, may be missing.
    Unavailable(Option<FeatureArea>),
}

impl OpNotice {
    /// The sentence to show the user.
    pub open spec fn spec_message(self) -> &'static str {
        match self {
            OpNotice::MayBlock => "Some operations may be blocking",
            OpNotice::SyscallFallback => "Using syscall as fallback",
            OpNotice::Unavailable(Some(FeatureArea::Files)) => {
                "Some features (like files) may not be available"
            },
            OpNotice::Unavailable(Some(FeatureArea::Sockets)) => {
                "Some features (like sockets) may not be available"
            },
            OpNotice::Unavailable(None) => "Some features  may not be available",
        }
    }

    /// The sentence to show the user.
    pub fn message(&self) -> (text: &'static str)
        ensures
            text == self.spec_message(),
    {
        match self {
            OpNotice::MayBlock => "Some operations may be blocking",
            OpNotice::SyscallFallback => "Using syscall as fallback",
            OpNotice::Unavailable(Some(FeatureArea::Files)) => {
                "Some features (like files) may not be available"
            },
            OpNotice::Unavailable(Some(FeatureArea::Sockets)) => {
                "Some features (like sockets) may not be available"
            },
            OpNotice::Unavailable(None) => "Some features  may not be available",
        }
    }
}

/// A warning that the kernel lacks an operation the runtime would use.
#[derive(Clone, Copy, Debug, PartialEq, Eq, Structural)]
pub struct OpWarning {
    pub op: OpCode,
    pub notice: OpNotice,
}

/// The operations the runtime probes for, each with the notice to give when
/// it is missing, in the order in which they are reported.
pub open spec fn spec_probed_ops() -> Seq<OpWarning> {
    seq![
        OpWarning { op: OpCode::OpenAt, notice: OpNotice::Unavailable(Some(FeatureArea::Files)) },
        OpWarning { op: OpCode::Close, notice: OpNotice::MayBlock },
        OpWarning { op: OpCode::Read, notice: OpNotice::Unavailable(Some(FeatureArea::Files)) },
        OpWarning { op: OpCode::Write, notice: OpNotice::Unavailable(Some(FeatureArea::Files)) },
        OpWarning { op: OpCode::Socket, notice: OpNotice::SyscallFallback },
        OpWarning { op: OpCode::Accept, notice: OpNotice::Unavailable(Some(FeatureArea::Sockets)) },
        OpWarning { op: OpCode::Connect, notice: OpNotice::Unavailable(Some(FeatureArea::Sockets)) },
        OpWarning { op: OpCode::Recv, notice: OpNotice::Unavailable(Some(FeatureArea::Sockets)) },
        OpWarning { op: OpCode::RecvMsg, notice: OpNotice::Unavailable(Some(FeatureArea::Sockets)) },
        OpWarning { op: OpCode::Send, notice: OpNotice::Unavailable(Some(FeatureArea::Sockets)) },
        OpWarning { op: OpCode::SendMsg, notice: OpNotice::Unavailable(Some(FeatureArea::Sockets)) },
        OpWarning { op: OpCode::Shutdown, notice: OpNotice::MayBlock },
        OpWarning { op: OpCode::FileSync, notice: OpNotice::Unavailable(Some(FeatureArea::Files)) },
        OpWarning { op: OpCode::Statx, notice: OpNotice::Unavailable(Some(FeatureArea::Files)) },
        OpWarning { op: OpCode::PollAdd, notice: OpNotice::Unavailable(None) },
    ]
}

/// The operations the runtime probes for; see [`spec_probed_ops`].
pub fn probed_ops() -> (table: Vec<OpWarning>)
    ensures
        table@ == spec_probed_ops(),
{
    let files = OpNotice::Unavailable(Some(FeatureArea::Files));
    let sockets = OpNotice::Unavailable(Some(FeatureArea::Sockets));
    let mut table: Vec<OpWarning> = Vec::new();
    table.push(OpWarning { op: OpCode::OpenAt, notice: files });
    table.push(OpWarning { op: OpCode::Close, notice: OpNotice::MayBlock });
    table.push(OpWarning { op: OpCode::Read, notice: files });
    table.push(OpWarning { op: OpCode::Write, notice: files });
    table.push(OpWarning { op: OpCode::Socket, notice: OpNotice::SyscallFallback });
    table.push(OpWarning { op: OpCode::Accept, notice: sockets });
    table.push(OpWarning { op: OpCode::Connect, notice: sockets });
    table.push(OpWarning { op: OpCode::Recv, notice: sockets });
    table.push(OpWarning { op: OpCode::RecvMsg, notice: sockets });
    table.push(OpWarning { op: OpCode::Send, notice: sockets });
    table.push(OpWarning { op: OpCode::SendMsg, notice: sockets });
    table.push(OpWarning { op: OpCode::Shutdown, notice: OpNotice::MayBlock });
    table.push(OpWarning { op: OpCode::FileSync, notice: files });
    table.push(OpWarning { op: OpCode::Statx, notice: files });
    table.push(OpWarning { op: OpCode::PollAdd, notice: OpNotice::Unavailable(None) });
    assert(table@ =~= spec_probed_ops());
    table
}

/// The warnings owed for `features`: the probed operations the kernel lacks,
/// in table order.
pub open spec fn spec_missing_ops(features: IoRingFeatures) -> Seq<OpWarning> {
    spec_probed_ops().filter(|w: OpWarning| !features.spec_opcode_supported(w.op))
}

/// The warnings owed for `features`; see [`spec_missing_ops`].
pub fn missing_ops(features: &IoRingFeatures) -> (warnings: Vec<OpWarning>)
    ensures
        warnings@ == spec_missing_ops(*features),
{
    let table = probed_ops();
    let mut warnings: Vec<OpWarning> = Vec::new();
    let ghost pred = |w: OpWarning| !features.spec_opcode_supported(w.op);
    let mut i: usize = 0;
    proof {
        reveal(Seq::filter);
        assert(table@.take(0) =~= Seq::<OpWarning>::empty());
    }
    while i < table.len()
        invariant
            i <= table.len(),
            table@ == spec_probed_ops(),
            pred == (|w: OpWarning| !features.spec_opcode_supported(w.op)),
            warnings@ == table@.take(i as int).filter(pred),
        decreases table.len() - i,
    {
        let entry = table[i];
        proof {
            reveal(Seq::filter);
            assert(table@.take(i + 1).drop_last() =~= table@.take(i as int));
            assert(table@.take(i + 1).last() == entry);
        }
        if !features.opcode_supported(entry.op) {
            warnings.push(entry);
        }
        i += 1;
    }
    proof {
        assert(table@.take(i as int) =~= table@);
    }
    warnings
}

/// The setup flags to pass: those the engine wants and the kernel accepts.
pub open spec fn spec_setup_flags(features: IoRingFeatures) -> u32 {
    WANTED_SETUP_FLAGS & features.setup_flags
}

/// The parameter block to hand to ring setup. The completion ring size is
/// only requested when the kernel will clamp it.
pub open spec fn spec_setup_params(features: IoRingFeatures) -> Parameters {
    let flags = spec_setup_flags(features);
    Parameters {
        sq_entries: SQ_ENTRIES,
        cq_entries: if spec_intersects(flags, SETUP_CLAMP) {
            CQ_ENTRIES
        } else {
            0
        },
        flags,
        ..Parameters::spec_zeroed()
    }
}

/// Whether the engine will run on its compatibility path: a wanted setup flag
/// is refused, or a timeout cannot accompany the enter call.
pub open spec fn spec_compatibility(features: IoRingFeatures) -> bool {
    !spec_contains(spec_setup_flags(features), WANTED_SETUP_FLAGS)
        || !features.spec_feature_supported(FEATURE_EXT_ARG)
}

/// What to do to set up a ring on the probed kernel.
#[derive(Debug)]
pub struct SetupPlan {
    /// What the probe found.
    pub features: IoRingFeatures,
    /// The parameter block to pass to ring setup.
    pub params: Parameters,
    /// A warning for each probed operation the kernel lacks.
    pub warnings: Vec<OpWarning>,
    /// Whether to warn that the engine runs in compatibility mode.
    pub compatibility: bool,
}

impl SetupPlan {
    /// The plan that [`create_io_uring`] makes for `features`.
    pub open spec fn matches(self, features: IoRingFeatures) -> bool {
        &&& self.features == features
        &&& self.params == spec_setup_params(features)
        &&& self.warnings@ == spec_missing_ops(features)
        &&& self.compatibility == spec_compatibility(features)
    }
}

/// Plans the setup of a ring from the result of probing the kernel. Without
/// `io_uring` (`detected` is `None`) there is nothing to plan and the error
/// is `ENOSYS`.
pub fn create_io_uring(detected: Option<IoRingFeatures>) -> (res: Result<SetupPlan, Error>)
    ensures
        match detected {
            None => res == Err::<SetupPlan, Error>(Error::Os(OsError { code: ENOSYS })),
            Some(features) => res.is_ok() && res.unwrap().matches(features),
        },
{
    let features = match detected {
        Some(features) => features,
        None => {
            return Err(Error::Os(OsError::new(ENOSYS)));
        },
    };
    let warnings = missing_ops(&features);
    let setup_flags: u32 = WANTED_SETUP_FLAGS & features.setup_flags;
    let mut params = Parameters::zeroed();
    params.sq_entries = SQ_ENTRIES;
    params.cq_entries = CQ_ENTRIES;
    params.flags = setup_flags;
    if !intersects(setup_flags, SETUP_CLAMP) {
        params.cq_entries = 0;
    }
    let compatibility = !contains(setup_flags, WANTED_SETUP_FLAGS) || !features.feature_supported(
        FEATURE_EXT_ARG,
    );
    Ok(SetupPlan { features, params, warnings, compatibility })
}

/// What failed when the kernel refused to set up the ring, and whether the
/// cause is likely the limit on locked memory.
pub fn setup_failed(err: OsError) -> (res: (Error, bool))
    ensures
        res.0 == Error::Os(err),
        res.1 == (err.code == ENOMEM),
{
    (Error::Os(err), err.code == ENOMEM)
}

/// The size in bytes of an array of `count` entries of `size` bytes each that
/// starts `offset` bytes into its map; wide entries take twice the room.
pub open spec fn spec_scale(size: u64, count: u32, offset: u32, wide: bool) -> int {
    offset as int + size as int * (if wide {
        2 * count as int
    } else {
        count as int
    })
}

/// The size in bytes of an entry array; see [`spec_scale`].
pub fn scale(size: u64, count: u32, offset: u32, wide: bool) -> (bytes: u64)
    requires
        size <= SQE_SIZE,
    ensures
        bytes == spec_scale(size, count, offset, wide),
{
    let count: u64 = if wide {
        2 * (count as u64)
    } else {
        count as u64
    };
    assert(size as int * count as int <= 64 * count as int) by (nonlinear_arith)
        requires
            size <= 64,
            count >= 0,
    ;
    offset as u64 + size * count
}

/// One memory map to make: its length and its offset into the ring's file.
#[derive(Clone, Copy, Debug, PartialEq, Eq, Structural)]
pub struct MapRequest {
    pub size: u64,
    pub offset: u64,
}

/// The memory maps of a ring.
#[derive(Clone, Copy, Debug, PartialEq, Eq, Structural)]
pub struct Rings {
    /// The submission ring; it holds the completion ring too when the kernel
    /// shares one map between them.
    pub ring: MapRequest,
    /// The completion ring, when it has a map of its own.
    pub separate_completion_ring: Option<MapRequest>,
    /// The submission entries.
    pub submission_entries: MapRequest,
}

impl Rings {
    /// The bytes the submission ring needs: everything up to the end of its
    /// index array.
    pub open spec fn spec_submission_size(params: Parameters) -> int {
        spec_scale(INDEX_SIZE, params.sq_entries, params.sq_off.array, false)
    }

    /// The bytes the completion ring needs: everything up to the end of its
    /// entries.
    pub open spec fn spec_completion_size(params: Parameters) -> int {
        spec_scale(
            CQE_SIZE,
            params.cq_entries,
            params.cq_off.cqes,
            spec_intersects(params.flags, SETUP_CQE32),
        )
    }

    /// The maps for the ring that `params` describes. With a shared map the
    /// one map is as large as the larger ring needs.
    pub open spec fn spec_new(params: Parameters) -> Rings {
        let sq = Self::spec_submission_size(params);
        let cq = Self::spec_completion_size(params);
        let entries = MapRequest {
            size: spec_scale(
                SQE_SIZE,
                params.sq_entries,
                0,
                spec_intersects(params.flags, SETUP_SQE128),
            ) as u64,
            offset: OFFSET_SUBMISSION_ENTRIES,
        };
        if spec_intersects(params.features, FEATURE_SINGLE_MMAP) {
            Rings {
                ring: MapRequest {
                    size: (if sq >= cq {
                        sq
                    } else {
                        cq
                    }) as u64,
                    offset: OFFSET_SUBMISSION_RING,
                },
                separate_completion_ring: None,
                submission_entries: entries,
            }
        } else {
            Rings {
                ring: MapRequest { size: sq as u64, offset: OFFSET_SUBMISSION_RING },
                separate_completion_ring: Some(
                    MapRequest { size: cq as u64, offset: OFFSET_COMPLETION_RING },
                ),
                submission_entries: entries,
            }
        }
    }

    /// The maps for the ring that `params` describes; see [`Rings::spec_new`].
    pub fn new(params: &Parameters) -> (rings: Rings)
        ensures
            rings == Rings::spec_new(*params),
    {
        let sq: u64 = scale(INDEX_SIZE, params.sq_entries, params.sq_off.array, false);
        let cq: u64 = scale(
            CQE_SIZE,
            params.cq_entries,
            params.cq_off.cqes,
            intersects(params.flags, SETUP_CQE32),
        );
        let (ring, separate_completion_ring) = if intersects(params.features, FEATURE_SINGLE_MMAP) {
            (
                MapRequest {
                    size: if sq >= cq {
                        sq
                    } else {
                        cq
                    },
                    offset: OFFSET_SUBMISSION_RING,
                },
                None,
            )
        } else {
            (
                MapRequest { size: sq, offset: OFFSET_SUBMISSION_RING },
                Some(MapRequest { size: cq, offset: OFFSET_COMPLETION_RING }),
            )
        };
        let submission_entries = MapRequest {
            size: scale(SQE_SIZE, params.sq_entries, 0, intersects(params.flags, SETUP_SQE128)),
            offset: OFFSET_SUBMISSION_ENTRIES,
        };
        Rings { ring, separate_completion_ring, submission_entries }
    }

    /// The map that holds the submission ring.
    pub fn submission_ring(&self) -> (map: MapRequest)
        ensures
            map == self.ring,
    {
        self.ring
    }

    /// The map that holds the completion ring.
    pub fn completion_ring(&self) -> (map: MapRequest)
        ensures
            map == match self.separate_completion_ring {
                Some(own) => own,
                None => self.ring,
            },
    {
        match self.separate_completion_ring {
            Some(own) => own,
            None => self.ring,
        }
    }
}

} // verus!
