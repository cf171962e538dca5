//! The engine's bookkeeping around the ring: queueing submissions, deciding
//! how to enter the kernel, reading what an enter returned, and ordering the
//! delivery of completions.

use vstd::prelude::*;
use crate::engine::uring::op::{Op, OpCode, SubmissionEntry};
use crate::engine::uring::params::{
    spec_intersects, IoRingFeatures, Parameters, ENTER_GETEVENTS, FEATURE_EXT_ARG,
    SETUP_SUBMIT_ALL, SQ_CQ_OVERFLOW, SQ_TASKRUN,
};
use crate::engine::uring::queue::{
    lemma_slot_in_ring, lemma_slots_distinct, spec_is_ring_size, spec_slot, Queue,
};
use crate::error::{Error, OsError, EAGAIN, EBUSY, EINTR, ETIME};

verus! {

/// The longest the compatibility path sleeps in the kernel, in nanoseconds.
pub const COMPAT_TIMEOUT_CAP: u64 = 1_000_000_000;

/// Poll event: there is data to read.
pub const POLL_IN: u32 = 0x1;

/// Poll event: an error condition.
pub const POLL_ERR: u32 = 0x8;

/// What became of an entry handed to the submission ring.
#[derive(Clone, Copy, Debug, PartialEq, Eq, Structural)]
pub enum Pushed {
    /// The entry was written to the given slot.
    Queued(u32),
    /// The entry was written to the given slot and the ring is now full: it
    /// must be flushed before the next entry.
    Flush(u32),
    /// The ring was full and nothing was written.
    Full,
}

/// What to do after one call that enters the ring.
#[derive(Clone, Copy, Debug, PartialEq, Eq)]
pub enum EnterStep {
    /// The enter is over, with this result.
    Done(Result<(), Error>),
    /// The kernel took only some entries: enter again with this many left.
    Retry(u32),
}

/// How to wait for completions.
#[derive(Clone, Copy, Debug, PartialEq, Eq, Structural)]
pub enum WaitPlan {
    /// Do not enter the kernel: deliver what the completion ring holds, which
    /// may be nothing.
    Ready,
    /// Enter once, with the timeout as an extended argument.
    Enter { wait: u32, flags: u32, timeout: u64 },
    /// The kernel takes no extended argument: flush, then sleep on a timeout
    /// entry.
    Compat,
}

/// A time span as the kernel reads it.
#[derive(Clone, Copy, Debug, PartialEq, Eq, Structural)]
pub struct TimeSpec {
    pub sec: i64,
    pub nanos: i64,
}

/// The second half of the compatibility wait.
#[derive(Clone, Copy, Debug, PartialEq, Eq, Structural)]
pub enum CompatStep {
    /// Completions arrived during the flush: do not sleep.
    Done,
    /// A timeout entry was queued; store `timespec` where the entry points
    /// and enter, waiting for one completion.
    Wait { timespec: TimeSpec, pushed: Pushed },
}

/// One completion to hand to its request.
#[derive(Clone, Copy, Debug, PartialEq, Eq, Structural)]
pub struct Delivery {
    /// The position of the completion in the ring's sequence.
    pub position: u32,
    /// The slot to read the completion from.
    pub slot: u32,
    /// The head to publish before the request's callback runs, if any.
    pub khead: Option<u32>,
}

/// What a completion of the wake poll asks for.
#[derive(Clone, Copy, Debug, PartialEq, Eq, Structural)]
pub enum WakeEvent {
    /// Requests are waiting in the wake queue: serve them.
    Service,
    /// Nothing to serve: poll again.
    Rearm,
    /// The poll failed or reported an error; the runtime cannot go on.
    Fatal(Option<OsError>),
}

/// What the enter that just returned means for an enter that had
/// `to_submit` entries left to hand over.
///
/// A success takes the accepted entries off; with none left the enter is
/// over. With some left the engine retries, unless the ring was set up to
/// submit everything at once: then a partial submit means the completion ring
/// is full. A timeout, interrupt or busy kernel with nothing to submit is no
/// error. `EAGAIN` means out of memory. Any other error is handed on.
pub open spec fn spec_enter_step(
    to_submit: u32,
    outcome: Result<u32, OsError>,
    submit_all: bool,
) -> EnterStep {
    match outcome {
        Ok(submitted) => {
            if submitted >= to_submit {
                EnterStep::Done(Ok(()))
            } else if !submit_all {
                EnterStep::Retry((to_submit - submitted) as u32)
            } else {
                EnterStep::Done(Err(Error::OutOfMemory))
            }
        },
        Err(err) => {
            if (err.code == ETIME || err.code == EINTR || err.code == EBUSY) && to_submit == 0 {
                EnterStep::Done(Ok(()))
            } else if err.code == EAGAIN {
                EnterStep::Done(Err(Error::OutOfMemory))
            } else {
                EnterStep::Done(Err(Error::Os(err)))
            }
        },
    }
}

/// Reads the outcome of one enter; see [`spec_enter_step`].
pub fn enter_step(
    to_submit: u32,
    outcome: Result<u32,
    OsError>,
    submit_all: bool,
) -> (step: EnterStep)
    ensures
        step == spec_enter_step(to_submit, outcome, submit_all),
{
    match outcome {
        Ok(submitted) => {
            if submitted >= to_submit {
                EnterStep::Done(Ok(()))
            } else if !submit_all {
                EnterStep::Retry(to_submit - submitted)
            } else {
                EnterStep::Done(Err(Error::OutOfMemory))
            }
        },
        Err(err) => {
            if (err.code == ETIME || err.code == EINTR || err.code == EBUSY) && to_submit == 0 {
                EnterStep::Done(Ok(()))
            } else if err.code == EAGAIN {
                EnterStep::Done(Err(Error::OutOfMemory))
            } else {
                EnterStep::Done(Err(Error::Os(err)))
            }
        },
    }
}

/// What a whole enter of `to_submit` entries comes to when the kernel answers
/// the successive calls with `outcomes`: the result of the first call that
/// ends the enter, or `None` if every call asked for another.
pub open spec fn spec_enter(
    to_submit: u32,
    outcomes: Seq<Result<u32, OsError>>,
    submit_all: bool,
) -> Option<Result<(), Error>>
    decreases outcomes.len(),
{
    if outcomes.len() == 0 {
        None
    } else {
        match spec_enter_step(to_submit, outcomes[0], submit_all) {
            EnterStep::Done(res) => Some(res),
            EnterStep::Retry(rest) => spec_enter(rest, outcomes.skip(1), submit_all),
        }
    }
}

/// Without submit-all the engine tolerates partial submits: as long as the
/// kernel takes at least one entry with every call, the enter ends in
/// success, after no more calls than there are entries to submit.
pub proof fn lemma_enter_submits_all(to_submit: u32, outcomes: Seq<Result<u32, OsError>>)
    requires
        outcomes.len() >= 1,
        outcomes.len() >= to_submit,
        forall|i: int|
            0 <= i < outcomes.len() ==> (#[trigger] outcomes[i]).is_ok() && outcomes[i].unwrap()
                >= 1,
    ensures
        spec_enter(to_submit, outcomes, false) == Some(Ok::<(), Error>(())),
    decreases outcomes.len(),
{
    let first = outcomes[0];
    assert(first.is_ok() && first.unwrap() >= 1);
    if first.unwrap() < to_submit {
        let rest = (to_submit - first.unwrap()) as u32;
        let tail = outcomes.skip(1);
        assert forall|i: int| 0 <= i < tail.len() implies (#[trigger] tail[i]).is_ok()
            && tail[i].unwrap() >= 1 by {
            assert(tail[i] == outcomes[i + 1]);
        }
        lemma_enter_submits_all(rest, tail);
    }
}

/// Without submit-all, a partial submit is retried with exactly the entries
/// the kernel did not take, and the enter succeeds once none are left.
pub proof fn lemma_partial_submit_retries(to_submit: u32, submitted: u32)
    ensures
        submitted < to_submit ==> spec_enter_step(to_submit, Ok(submitted), false)
            == EnterStep::Retry((to_submit - submitted) as u32),
        submitted >= to_submit ==> spec_enter_step(to_submit, Ok(submitted), false)
            == EnterStep::Done(Ok(())),
        0 < submitted < to_submit ==> (to_submit - submitted) < to_submit,
{
}

/// A timeout, an interrupt or a busy kernel, with nothing to submit, reads
/// the same as a success.
pub proof fn lemma_benign_errors(err: OsError, submit_all: bool)
    requires
        err.code == ETIME || err.code == EINTR || err.code == EBUSY,
    ensures
        spec_enter_step(0, Err(err), submit_all) == spec_enter_step(0, Ok(0), submit_all),
        spec_enter_step(0, Err(err), submit_all) == EnterStep::Done(Ok(())),
{
}

/// The completions of one pass over `[head, tail)`, in delivery order: the
/// last one first, while it is likely still in cache, then the others from
/// the head on. Each of the others is preceded by publishing the head just
/// past it, so that its slot is free again while its callback runs.
pub open spec fn spec_deliveries(head: u32, tail: u32, mask: u32) -> Seq<Delivery> {
    let count = tail.wrapping_sub(head);
    if count == 0 {
        Seq::empty()
    } else {
        let last = tail.wrapping_sub(1);
        seq![Delivery { position: last, slot: spec_slot(last, mask), khead: None }] + Seq::new(
            (count - 1) as nat,
            |k: int|
                Delivery {
                    position: head.wrapping_add(k as u32),
                    slot: spec_slot(head.wrapping_add(k as u32), mask),
                    khead: Some(head.wrapping_add(k as u32).wrapping_add(1)),
                },
        )
    }
}

/// Where in the delivery order the completion `k` places after the head is.
pub open spec fn spec_delivery_index(head: u32, tail: u32, k: int) -> int {
    if k == tail.wrapping_sub(head) - 1 {
        0
    } else {
        k + 1
    }
}

/// A pass delivers every completion that was in the ring when it began, and
/// each of them once: there are as many deliveries as completions, and the
/// completion `k` places after the head has a place of its own among them.
pub proof fn lemma_pass_delivers_all(head: u32, tail: u32, mask: u32, k: int)
    requires
        0 <= k < tail.wrapping_sub(head),
    ensures
        spec_deliveries(head, tail, mask).len() == tail.wrapping_sub(head),
        0 <= spec_delivery_index(head, tail, k) < tail.wrapping_sub(head),
        spec_deliveries(head, tail, mask)[spec_delivery_index(head, tail, k)].position
            == head.wrapping_add(k as u32),
        forall|j: int|
            0 <= j < tail.wrapping_sub(head) && j != k ==> spec_delivery_index(head, tail, j)
                != spec_delivery_index(head, tail, k),
{
}

/// The state of the `io_uring` engine that the runtime keeps on its side.
#[derive(Debug)]
pub struct IoUring {
    /// Entries written to the ring and not yet handed to the kernel.
    pub to_submit: u32,
    /// Both rings.
    pub queue: Queue,
    /// Requests handed to the kernel whose completions are still owed.
    pub to_complete: u64,
    /// What the kernel can do.
    pub features: IoRingFeatures,
    /// Wakes from other threads that workers are waiting for.
    pub expected_wakes: usize,
    /// The descriptor that other threads write to in order to wake the driver.
    pub event_fd: i32,
    /// The address of the request that serves the wake poll.
    pub event_request: u64,
    /// The address of a request that ignores its completion.
    pub no_op: u64,
}

impl IoUring {
    /// The rings are well formed and no more entries wait than the
    /// submission ring has slots.
    pub open spec fn wf(&self) -> bool {
        &&& self.queue.wf()
        &&& self.to_submit <= self.queue.submission.capacity
    }

    /// The position of the oldest entry that waits to be submitted.
    pub open spec fn spec_first_pending(&self) -> u32 {
        self.queue.submission.tail.wrapping_sub(self.to_submit)
    }

    /// The entries that wait to be submitted, oldest first, as the ring's
    /// slots hold them.
    pub open spec fn pending(&self) -> Seq<SubmissionEntry> {
        Seq::new(
            self.to_submit as nat,
            |k: int|
                self.queue.submission.entries@[spec_slot(
                    self.spec_first_pending().wrapping_add(k as u32),
                    self.queue.submission.mask,
                ) as int],
        )
    }

    /// Whether `self` is what handing `entry` to the ring of `before` leaves,
    /// with `pushed` as the answer: a full ring takes nothing and nothing
    /// changes; otherwise `entry` joins the waiting entries behind all the
    /// others, and the answer says whether the ring is full now. Nothing
    /// else about the engine changes either way.
    pub open spec fn queued(
        &self,
        before: &IoUring,
        entry: SubmissionEntry,
        pushed: Pushed,
    ) -> bool {
        &&& before.to_submit == before.queue.submission.capacity ==> {
            &&& pushed == Pushed::Full
            &&& *self == *before
        }
        &&& before.to_submit < before.queue.submission.capacity ==> {
            &&& self.pending() == before.pending().push(entry)
            &&& self.to_submit == before.to_submit + 1
            &&& self.queue.submission.tail == before.queue.submission.tail.wrapping_add(1)
            &&& self.queue.submission.entries@ == before.queue.submission.entries@.update(
                spec_slot(before.queue.submission.tail, before.queue.submission.mask) as int,
                entry,
            )
            &&& pushed == if self.to_submit == self.queue.submission.capacity {
                Pushed::Flush(
                    spec_slot(before.queue.submission.tail, before.queue.submission.mask),
                )
            } else {
                Pushed::Queued(
                    spec_slot(before.queue.submission.tail, before.queue.submission.mask),
                )
            }
        }
        &&& self.to_complete == before.to_complete
        &&& self.features == before.features
        &&& self.expected_wakes == before.expected_wakes
        &&& self.event_fd == before.event_fd
        &&& self.event_request == before.event_request
        &&& self.no_op == before.no_op
        &&& self.queue.completion == before.queue.completion
        &&& self.queue.submission.capacity == before.queue.submission.capacity
        &&& self.queue.submission.ktail == before.queue.submission.ktail
    }

    /// An engine on the ring the kernel granted in `params`, with nothing
    /// queued and nothing in flight.
    pub fn new(
        features: IoRingFeatures,
        params: &Parameters,
        event_fd: i32,
        event_request: u64,
        no_op: u64,
    ) -> (engine: IoUring)
        requires
            spec_is_ring_size(params.sq_entries),
            spec_is_ring_size(params.cq_entries),
        ensures
            engine.wf(),
            engine.to_submit == 0,
            engine.to_complete == 0,
            engine.expected_wakes == 0,
            engine.features == features,
            engine.event_fd == event_fd,
            engine.event_request == event_request,
            engine.no_op == no_op,
            engine.queue.submission.capacity == params.sq_entries,
            engine.queue.completion.capacity == params.cq_entries,
            engine.pending() =~= Seq::<SubmissionEntry>::empty(),
    {
        IoUring {
            to_submit: 0,
            queue: Queue::new(params),
            to_complete: 0,
            features,
            expected_wakes: 0,
            event_fd,
            event_request,
            no_op,
        }
    }

    /// Whether anything waits to be submitted or completed.
    pub fn has_work(&self) -> (res: bool)
        ensures
            res == (self.to_complete != 0 || self.to_submit != 0),
    {
        self.to_complete != 0 || self.to_submit != 0
    }

    /// Writes `entry` to the submission ring.
    ///
    /// A full ring takes nothing. Otherwise the entry joins the waiting
    /// entries behind all the others, none of which changes, and the result
    /// says whether the ring is full now and has to be flushed.
    pub fn push(&mut self, entry: SubmissionEntry) -> (pushed: Pushed)
        requires
            old(self).wf(),
        ensures
            final(self).wf(),
            final(self).queued(old(self), entry, pushed),
    {
        if self.to_submit >= self.queue.submission.capacity {
            return Pushed::Full;
        }
        let ghost before = *self;
        let ghost start = self.spec_first_pending();
        let slot: u32 = self.queue.submission.push(entry);
        self.to_submit = self.to_submit + 1;
        proof {
            let capacity = before.queue.submission.capacity;
            let mask = before.queue.submission.mask;
            assert(self.spec_first_pending() == start);
            assert(before.queue.submission.tail == start.wrapping_add(before.to_submit));
            assert forall|k: int| 0 <= k < before.to_submit implies #[trigger] self.pending()[k]
                == before.pending()[k] by {
                lemma_slots_distinct(start, k as u32, before.to_submit, capacity);
                lemma_slot_in_ring(start.wrapping_add(k as u32), mask);
            }
            assert(self.pending()[before.to_submit as int] == entry);
            assert(self.pending() =~= before.pending().push(entry));
        }
        if self.to_submit == self.queue.submission.capacity {
            Pushed::Flush(slot)
        } else {
            Pushed::Queued(slot)
        }
    }

    /// Queues `op` on behalf of the request at the address `request`: the
    /// address goes into the entry's `user_data`, then the entry is pushed.
    pub fn start_async(&mut self, op: SubmissionEntry, request: u64) -> (pushed: Pushed)
        requires
            old(self).wf(),
        ensures
            final(self).wf(),
            final(self).queued(old(self), SubmissionEntry { user_data: request, ..op }, pushed),
    {
        let mut op = op;
        op.user_data = request;
        self.push(op)
    }

    /// Asks the kernel to cancel the operation of the request at the address
    /// `request`. The cancellation itself completes on the no-op request.
    pub fn cancel(&mut self, request: u64) -> (pushed: Pushed)
        requires
            old(self).wf(),
        ensures
            final(self).wf(),
            final(self).queued(
                old(self),
                SubmissionEntry {
                    addr: request,
                    user_data: old(self).no_op,
                    ..SubmissionEntry::spec_new(OpCode::AsyncCancel)
                },
                pushed,
            ),
    {
        let mut op = Op::cancel(0);
        op.addr = request;
        let no_op: u64 = self.no_op;
        self.start_async(op, no_op)
    }

    /// The entry that polls the wake descriptor for readability on behalf of
    /// the wake request.
    pub open spec fn spec_wake_poll(&self) -> SubmissionEntry {
        SubmissionEntry {
            fd: self.event_fd,
            rw_flags: POLL_IN,
            user_data: self.event_request,
            ..SubmissionEntry::spec_new(OpCode::PollAdd)
        }
    }

    /// Arms the poll on the wake descriptor.
    pub fn poll_wake(&mut self) -> (pushed: Pushed)
        requires
            old(self).wf(),
        ensures
            final(self).wf(),
            final(self).queued(old(self), old(self).spec_wake_poll(), pushed),
    {
        let op = Op::poll(self.event_fd, POLL_IN);
        let request: u64 = self.event_request;
        self.start_async(op, request)
    }

    /// Begins an enter: publishes the tail, so that the kernel sees every
    /// entry written, and moves the waiting entries over to the requests in
    /// flight. Returns how many entries the enter has to submit.
    pub fn begin_enter(&mut self) -> (to_submit: u32)
        requires
            old(self).wf(),
        ensures
            final(self).wf(),
            to_submit == old(self).to_submit,
            final(self).to_submit == 0,
            final(self).to_complete == if old(self).to_complete + old(self).to_submit
                > u64::MAX {
                u64::MAX
            } else {
                (old(self).to_complete + old(self).to_submit) as u64
            },
            final(self).queue.submission.ktail == old(self).queue.submission.tail,
            final(self).queue.submission.tail == old(self).queue.submission.tail,
            final(self).queue.submission.entries@ == old(self).queue.submission.entries@,
            final(self).queue.submission.capacity == old(self).queue.submission.capacity,
            final(self).queue.completion == old(self).queue.completion,
            final(self).features == old(self).features,
            final(self).expected_wakes == old(self).expected_wakes,
    {
        self.queue.submission.sync();
        let to_submit: u32 = self.to_submit;
        self.to_submit = 0;
        self.to_complete = self.to_complete.saturating_add(to_submit as u64);
        to_submit
    }

    /// Reads the outcome of one enter of this ring; see [`spec_enter_step`].
    /// The ring submits everything at once when the kernel knows how to.
    pub fn enter(&self, to_submit: u32, outcome: Result<u32, OsError>) -> (step: EnterStep)
        ensures
            step == spec_enter_step(
                to_submit,
                outcome,
                self.features.spec_setup_flag_supported(SETUP_SUBMIT_ALL),
            ),
    {
        enter_step(to_submit, outcome, self.features.setup_flag_supported(SETUP_SUBMIT_ALL))
    }

    /// The flags for an enter that only submits: it fetches events too when
    /// the completion ring overflowed, and never waits.
    pub fn flush(sq_flags: u32) -> (flags: u32)
        ensures
            flags == if spec_intersects(sq_flags, SQ_CQ_OVERFLOW) {
                ENTER_GETEVENTS
            } else {
                0
            },
    {
        if Queue::needs_flush(sq_flags) {
            ENTER_GETEVENTS
        } else {
            0
        }
    }

    /// How [`IoUring::submit_and_wait`] decides.
    pub open spec fn spec_submit_and_wait(
        &self,
        timeout: u64,
        head: u32,
        tail: u32,
        sq_flags: u32,
    ) -> WaitPlan {
        if self.to_submit == 0 && (head != tail || (!spec_intersects(
            sq_flags,
            SQ_CQ_OVERFLOW | SQ_TASKRUN,
        ) && timeout == 0)) {
            WaitPlan::Ready
        } else if self.features.spec_feature_supported(FEATURE_EXT_ARG) {
            WaitPlan::Enter {
                wait: if timeout != 0 {
                    1
                } else {
                    0
                },
                flags: ENTER_GETEVENTS,
                timeout,
            }
        } else {
            WaitPlan::Compat
        }
    }

    /// Decides how to wait up to `timeout` nanoseconds for completions, given
    /// the completion ring's `head` and `tail` and the submission ring's flag
    /// word as the kernel last wrote them.
    ///
    /// With nothing to submit there is no need to enter when completions are
    /// already there, or when the caller would not wait and the kernel holds
    /// nothing back. Otherwise one enter submits and waits, for one
    /// completion if the timeout is not zero, on the compatibility path if
    /// the kernel takes no timeout with the enter.
    pub fn submit_and_wait(
        &self,
        timeout: u64,
        head: u32,
        tail: u32,
        sq_flags: u32,
    ) -> (plan: WaitPlan)
        ensures
            plan == self.spec_submit_and_wait(timeout, head, tail, sq_flags),
    {
        let wait = timeout != 0;
        if self.to_submit == 0 {
            if head != tail {
                return WaitPlan::Ready;
            }
            if !Queue::needs_enter(sq_flags) && !wait {
                return WaitPlan::Ready;
            }
        }
        if self.features.feature_supported(FEATURE_EXT_ARG) {
            WaitPlan::Enter {
                wait: if wait {
                    1
                } else {
                    0
                },
                flags: ENTER_GETEVENTS,
                timeout,
            }
        } else {
            WaitPlan::Compat
        }
    }

    /// The compatibility wait, after its flush. `tail_before` and
    /// `tail_after` are the completion ring's tail before and after the
    /// flush; `timespec` is the address where the caller keeps the time span
    /// for the kernel to read.
    ///
    /// If the flush brought completions there is nothing to wait for.
    /// Otherwise a timeout entry is queued on the no-op request, for
    /// `timeout` nanoseconds but at most one second.
    pub fn submit_and_wait_compat(
        &mut self,
        timeout: u64,
        tail_before: u32,
        tail_after: u32,
        timespec: u64,
    ) -> (step: CompatStep)
        requires
            old(self).wf(),
        ensures
            final(self).wf(),
            tail_before != tail_after ==> step == CompatStep::Done && *final(self) == *old(self),
            tail_before == tail_after ==> {
                &&& step is Wait
                &&& step->timespec == TimeSpec {
                    sec: 0,
                    nanos: if timeout <= COMPAT_TIMEOUT_CAP {
                        timeout as i64
                    } else {
                        COMPAT_TIMEOUT_CAP as i64
                    },
                }
                &&& final(self).queued(
                    old(self),
                    SubmissionEntry {
                        addr: timespec,
                        len: 1,
                        off: 1,
                        user_data: old(self).no_op,
                        ..SubmissionEntry::spec_new(OpCode::Timeout)
                    },
                    step->pushed,
                )
            },
    {
        if tail_before != tail_after {
            return CompatStep::Done;
        }
        let nanos: u64 = if timeout <= COMPAT_TIMEOUT_CAP {
            timeout
        } else {
            COMPAT_TIMEOUT_CAP
        };
        let ts = TimeSpec { sec: 0, nanos: nanos as i64 };
        let op = Op::timeout(timespec, 1, 0);
        let no_op: u64 = self.no_op;
        let pushed = self.start_async(op, no_op);
        CompatStep::Wait { timespec: ts, pushed }
    }

    /// Orders the delivery of the completions in `[head, tail)` and accounts
    /// for them: they are no longer owed, and once the pass is over the
    /// published head is `tail`. See [`spec_deliveries`] for the order.
    pub fn run_events(&mut self, head: u32, tail: u32) -> (deliveries: Vec<Delivery>)
        requires
            old(self).wf(),
        ensures
            final(self).wf(),
            deliveries@ == spec_deliveries(head, tail, old(self).queue.completion.mask),
            final(self).to_complete == if old(self).to_complete >= tail.wrapping_sub(head) {
                (old(self).to_complete - tail.wrapping_sub(head)) as u64
            } else {
                0
            },
            head != tail ==> final(self).queue.completion.khead == tail,
            head == tail ==> final(self).queue.completion.khead == old(
                self,
            ).queue.completion.khead,
            final(self).queue.completion.mask == old(self).queue.completion.mask,
            final(self).queue.completion.capacity == old(self).queue.completion.capacity,
            final(self).queue.submission == old(self).queue.submission,
            final(self).to_submit == old(self).to_submit,
            final(self).features == old(self).features,
            final(self).expected_wakes == old(self).expected_wakes,
    {
        let mask: u32 = self.queue.completion.mask;
        let count: u32 = tail.wrapping_sub(head);
        let mut deliveries: Vec<Delivery> = Vec::new();
        if count == 0 {
            return deliveries;
        }
        self.to_complete = self.to_complete.saturating_sub(count as u64);
        let last: u32 = tail.wrapping_sub(1);
        deliveries.push(Delivery { position: last, slot: last & mask, khead: None });
        let mut current: u32 = head;
        let ghost expected = spec_deliveries(head, tail, mask);
        while current != last
            invariant
                count == tail.wrapping_sub(head),
                count != 0,
                last == tail.wrapping_sub(1),
                expected == spec_deliveries(head, tail, mask),
                current.wrapping_sub(head) < count,
                deliveries@.len() == current.wrapping_sub(head) + 1,
                forall|i: int| 0 <= i < deliveries@.len() ==> deliveries@[i] == expected[i],
            decreases last.wrapping_sub(current),
        {
            let next: u32 = current.wrapping_add(1);
            proof {
                let k = current.wrapping_sub(head);
                assert(head.wrapping_add(k) == current);
                assert(expected[k + 1] == Delivery {
                    position: current,
                    slot: spec_slot(current, mask),
                    khead: Some(next),
                });
            }
            deliveries.push(Delivery { position: current, slot: current & mask, khead: Some(next) });
            current = next;
        }
        self.queue.completion.khead = current.wrapping_add(1);
        proof {
            assert(deliveries@ =~= expected);
        }
        deliveries
    }

    /// Notes that a worker is about to wait for a wake from another thread.
    /// The first such worker arms the poll on the wake descriptor; the result
    /// says what became of the poll's entry, if one was due.
    pub fn prepare_wake(&mut self) -> (res: Result<Option<Pushed>, Error>)
        requires
            old(self).wf(),
        ensures
            final(self).wf(),
            old(self).expected_wakes == usize::MAX ==> {
                &&& res == Err::<Option<Pushed>, Error>(Error::Overflow)
                &&& *final(self) == *old(self)
            },
            old(self).expected_wakes < usize::MAX ==> {
                &&& res.is_ok()
                &&& final(self).expected_wakes == old(self).expected_wakes + 1
                &&& match res.unwrap() {
                    None => old(self).expected_wakes != 0 && *final(self) == (IoUring {
                        expected_wakes: final(self).expected_wakes,
                        ..*old(self)
                    }),
                    Some(pushed) => old(self).expected_wakes == 0 && final(self).queued(
                        &(IoUring { expected_wakes: 1, ..*old(self) }),
                        old(self).spec_wake_poll(),
                        pushed,
                    ),
                }
            },
    {
        if self.expected_wakes == usize::MAX {
            return Err(Error::Overflow);
        }
        self.expected_wakes = self.expected_wakes + 1;
        if self.expected_wakes == 1 {
            Ok(Some(self.poll_wake()))
        } else {
            Ok(None)
        }
    }

    /// Reads the completion of the wake poll. Exactly the event "readable"
    /// means that requests wait to be woken. A failed poll or an error
    /// condition on the descriptor is fatal; anything else polls again.
    pub fn process_wake(events: isize) -> (event: WakeEvent)
        ensures
            event == if events == POLL_IN as isize {
                WakeEvent::Service
            } else if events < 0 {
                WakeEvent::Fatal(Some(crate::engine::spec_os_error(events)))
            } else if spec_intersects(events as u32, POLL_ERR) {
                WakeEvent::Fatal(None)
            } else {
                WakeEvent::Rearm
            },
    {
        if events == POLL_IN as isize {
            return WakeEvent::Service;
        }
        match crate::engine::Engine::result_for_poll(events) {
            Err(err) => WakeEvent::Fatal(Some(err)),
            Ok(flags) => {
                if flags & POLL_ERR != 0 {
                    WakeEvent::Fatal(None)
                } else {
                    WakeEvent::Rearm
                }
            },
        }
    }

    /// Accounts for `woken` requests served from the wake queue. If wakes are
    /// still expected after them the poll is armed again; the result says
    /// what became of its entry, if one was due. More wakes than were
    /// expected is an error and changes nothing.
    pub fn finish_wake(&mut self, woken: usize) -> (res: Result<Option<Pushed>, Error>)
        requires
            old(self).wf(),
        ensures
            final(self).wf(),
            woken > old(self).expected_wakes ==> {
                &&& res == Err::<Option<Pushed>, Error>(Error::Overflow)
                &&& *final(self) == *old(self)
            },
            woken <= old(self).expected_wakes ==> {
                &&& res.is_ok()
                &&& final(self).expected_wakes == old(self).expected_wakes - woken
                &&& match res.unwrap() {
                    None => final(self).expected_wakes == 0 && *final(self) == (IoUring {
                        expected_wakes: 0,
                        ..*old(self)
                    }),
                    Some(pushed) => final(self).expected_wakes != 0 && final(self).queued(
                        &(IoUring {
                            expected_wakes: (old(self).expected_wakes - woken) as usize,
                            ..*old(self)
                        }),
                        old(self).spec_wake_poll(),
                        pushed,
                    ),
                }
            },
    {
        if woken > self.expected_wakes {
            return Err(Error::Overflow);
        }
        self.expected_wakes = self.expected_wakes - woken;
        if self.expected_wakes != 0 {
            Ok(Some(self.poll_wake()))
        } else {
            Ok(None)
        }
    }
}

} // verus!
