//! The driver: the timers, the exit protocol and the engine they share a
//! park loop with.

use vstd::prelude::*;
use std::collections::BTreeSet;
use crate::engine::uring::engine::Pushed;
use crate::engine::uring::op::{OpCode, SubmissionEntry};
use crate::engine::Engine;
use crate::error::Error;
use crate::future::Progress;

verus! {

broadcast use {vstd::std_specs::btree::group_btree_axioms, vstd::laws_cmp::group_laws_cmp};

/// How long the driver parks when no timer is pending: one hour, in
/// nanoseconds.
pub const IDLE_WAIT: u64 = 3_600_000_000_000;

/// Options of a timeout.
#[derive(Clone, Copy, Debug, PartialEq, Eq, Structural)]
pub enum TimeoutFlag {
    /// The expiry is a point on the runtime's clock, not a span from now.
    Abs,
}

/// The bit of [`TimeoutFlag::Abs`] in a flag word.
pub const TIMEOUT_ABS: u32 = 0x1;

impl TimeoutFlag {
    /// The bit of the flag in a flag word.
    pub fn bits(&self) -> (bits: u32)
        ensures
            bits == TIMEOUT_ABS,
    {
        TIMEOUT_ABS
    }
}

/// A pending timer: when it expires on the runtime's clock, in nanoseconds,
/// and the address of the request to complete then. It doubles as the token
/// that cancels the timer.
#[derive(Clone, Copy, Debug, PartialEq, Eq, Structural)]
pub struct Timeout {
    pub expire: u64,
    pub request: u64,
}

impl Timeout {
    /// The pair the timers are ordered by: the expiry first, then the address
    /// of the request, so that timers which expire together stay apart.
    pub open spec fn key(self) -> (u64, u64) {
        (self.expire, self.request)
    }
}

/// A handle that asks for an operation in flight to be cancelled. It is used
/// at most once.
#[derive(Clone, Copy, Debug, PartialEq, Eq, Structural)]
pub enum Cancel {
    /// Cancels the timer by taking it off the wheel.
    Timer(Timeout),
    /// Cancels the ring operation of the request at the given address.
    Operation(u64),
}

/// What running a cancel token did.
#[derive(Clone, Copy, Debug, PartialEq, Eq, Structural)]
pub enum Cancelled {
    /// The operation is off: the caller completes the request at the given
    /// address with `Interrupted`.
    Interrupted(u64),
    /// A cancellation was handed to the ring. The operation will complete
    /// through the ring, with `Interrupted` unless it finished before.
    Submitted(Pushed),
}

/// Whether the timer `a` comes no later than `b` in the order of the wheel.
pub open spec fn spec_no_later(a: (u64, u64), b: (u64, u64)) -> bool {
    a.0 < b.0 || (a.0 == b.0 && a.1 <= b.1)
}

/// The timers of `timers` that are due at `now`.
pub open spec fn spec_due(timers: Set<(u64, u64)>, now: u64) -> Set<(u64, u64)> {
    timers.filter(|t: (u64, u64)| t.0 <= now)
}

/// The timers of `timers` that are not due at `now`.
pub open spec fn spec_waiting(timers: Set<(u64, u64)>, now: u64) -> Set<(u64, u64)> {
    timers.filter(|t: (u64, u64)| t.0 > now)
}

/// Whether `fired` lists timers in the order of the wheel, each once.
pub open spec fn spec_in_order(fired: Seq<Timeout>) -> bool {
    forall|i: int, j: int|
        0 <= i < j < fired.len() ==> spec_no_later(#[trigger] fired[i].key(), #[trigger] fired[j].key())
            && fired[i].key() != fired[j].key()
}

/// The timers that `fired` lists.
pub open spec fn spec_listed(fired: Seq<Timeout>) -> Set<(u64, u64)> {
    Set::new(|t: (u64, u64)| exists|i: int| 0 <= i < fired.len() && #[trigger] fired[i].key() == t)
}

/// A pending timer leaves the wheel in exactly one way. A pass at `now`
/// either fires it, when it is due, or leaves it on the wheel for its cancel
/// token, never both. Once it has left, by firing or by cancellation, it is
/// not pending any more: no pass at a later time fires it, and a cancel
/// token finds nothing.
pub proof fn lemma_timer_leaves_once(
    timers: Set<(u64,
    u64)>,
    timer: (u64,
    u64),
    now: u64,
    later: u64,
)
    requires
        timers.contains(timer),
    ensures
        spec_due(timers, now).contains(timer) != spec_waiting(timers, now).contains(timer),
        spec_due(timers, now).contains(timer) <==> timer.0 <= now,
        spec_due(timers, now).contains(timer) ==> !spec_due(
            spec_waiting(timers, now),
            later,
        ).contains(timer),
        !timers.remove(timer).contains(timer),
        !spec_due(timers.remove(timer), later).contains(timer),
{
}

/// Scheduling a timer that is not pending and cancelling it again leaves the
/// wheel as it was.
pub proof fn lemma_schedule_cancel(timers: Set<(u64, u64)>, timer: (u64, u64))
    requires
        !timers.contains(timer),
    ensures
        timers.insert(timer).contains(timer),
        timers.insert(timer).remove(timer) == timers,
{
    assert(timers.insert(timer).remove(timer) =~= timers);
}

/// Listing one more timer adds exactly that timer to the listed ones.
proof fn lemma_listed_push(fired: Seq<Timeout>, timer: Timeout)
    ensures
        spec_listed(fired.push(timer)) == spec_listed(fired).insert(timer.key()),
{
    let longer = fired.push(timer);
    assert forall|t: (u64, u64)| spec_listed(longer).contains(t) <==> spec_listed(fired).insert(
        timer.key(),
    ).contains(t) by {
        if spec_listed(fired).contains(t) {
            let i = choose|i: int| 0 <= i < fired.len() && #[trigger] fired[i].key() == t;
            assert(longer[i].key() == t);
        }
        if t == timer.key() {
            assert(longer[longer.len() - 1].key() == t);
        }
        if spec_listed(longer).contains(t) {
            let i = choose|i: int| 0 <= i < longer.len() && #[trigger] longer[i].key() == t;
            if i < fired.len() {
                assert(fired[i].key() == t);
            }
        }
    }
    assert(spec_listed(longer) =~= spec_listed(fired).insert(timer.key()));
}

/// Every listed timer is one of the list.
proof fn lemma_listed_member(fired: Seq<Timeout>, t: (u64, u64)) -> (i: int)
    requires
        spec_listed(fired).contains(t),
    ensures
        0 <= i < fired.len(),
        fired[i].key() == t,
{
    choose|i: int| 0 <= i < fired.len() && #[trigger] fired[i].key() == t
}

/// `BTreeSet::first`: the least element of the set in the order of its
/// elements, which for pairs of integers is the order of the first
/// components and, between equal ones, of the second; `None` exactly when
/// the set is empty.
#[verifier::external_body]
fn first_timer(timers: &BTreeSet<(u64, u64)>) -> (first: Option<(u64, u64)>)
    ensures
        match first {
            None => forall|t: (u64, u64)| !timers@.contains(t),
            Some(least) => timers@.contains(least) && forall|t: (u64, u64)|
                timers@.contains(t) ==> spec_no_later(least, t),
        },
{
    timers.first().copied()
}

/// The driver's own state.
pub struct Driver {
    /// The pending timers, ordered by expiry and request.
    pub timers: BTreeSet<(u64, u64)>,
    /// Whether the driver is shutting down.
    pub exiting: bool,
    /// The I/O backend.
    pub io_engine: Engine,
}

impl Driver {
    /// The driver is as its constructor leaves it and its methods keep it:
    /// finitely many timers over a well-formed engine.
    pub open spec fn wf(&self) -> bool {
        &&& self.timers@.finite()
        &&& self.io_engine.inner.wf()
    }

    /// The pending timers.
    #[verifier::inline]
    pub open spec fn pending(&self) -> Set<(u64, u64)> {
        self.timers@
    }

    /// A driver over `io_engine`, with no timers, not exiting.
    pub fn new(io_engine: Engine) -> (driver: Driver)
        requires
            io_engine.inner.wf(),
        ensures
            driver.wf(),
            driver.pending() == Set::<(u64, u64)>::empty(),
            !driver.exiting,
            driver.io_engine == io_engine,
    {
        Driver { timers: BTreeSet::new(), exiting: false, io_engine }
    }

    /// Fails with `Shutdown` exactly while the driver is exiting.
    pub fn check_exiting(&self) -> (res: Result<(), Error>)
        ensures
            res == if self.exiting {
                Err::<(), Error>(Error::Shutdown)
            } else {
                Ok::<(), Error>(())
            },
    {
        if !self.exiting {
            Ok(())
        } else {
            Err(Error::Shutdown)
        }
    }

    /// When a timeout of `expire` with `flags`, asked for at `now`, expires:
    /// at `expire` itself if that is absolute, else that long after `now`,
    /// at the end of the clock's range if the sum leaves it.
    pub open spec fn spec_expiry(expire: u64, flags: u32, now: u64) -> u64 {
        if flags & TIMEOUT_ABS != 0 {
            expire
        } else if expire + now > u64::MAX {
            u64::MAX
        } else {
            (expire + now) as u64
        }
    }

    /// Schedules a timer for the request at the address `request`; `now` is
    /// the current reading of the runtime's clock.
    ///
    /// While the driver is exiting nothing is scheduled and the operation is
    /// done at once with `Shutdown`. Otherwise the timer joins the pending
    /// ones and the result holds its cancel token.
    pub fn timeout(
        &mut self,
        expire: u64,
        flags: u32,
        request: u64,
        now: u64,
    ) -> (progress: Progress<Result<(), Error>, Cancel>)
        requires
            old(self).wf(),
        ensures
            final(self).wf(),
            final(self).exiting == old(self).exiting,
            final(self).io_engine == old(self).io_engine,
            old(self).exiting ==> {
                &&& progress == Progress::<Result<(), Error>, Cancel>::Done(Err(Error::Shutdown))
                &&& final(self).pending() == old(self).pending()
            },
            !old(self).exiting ==> {
                &&& progress == Progress::<Result<(), Error>, Cancel>::Pending(
                    Cancel::Timer(
                        Timeout { expire: Driver::spec_expiry(expire, flags, now), request },
                    ),
                )
                &&& final(self).pending() == old(self).pending().insert(
                    (Driver::spec_expiry(expire, flags, now), request),
                )
            },
    {
        if self.exiting {
            return Progress::Done(Err(Error::Shutdown));
        }
        let expire: u64 = if flags & TIMEOUT_ABS != 0 {
            expire
        } else {
            expire.saturating_add(now)
        };
        self.timers.insert((expire, request));
        Progress::Pending(Cancel::Timer(Timeout { expire, request }))
    }

    /// Cancels the pending timer `timer`. A timer that is not pending (it
    /// fired, was cancelled, or never existed) gives `NotFound` and changes
    /// nothing. Otherwise the timer is removed, and the caller completes its
    /// request with `Interrupted`.
    pub fn cancel_timer(&mut self, timer: Timeout) -> (res: Result<(), Error>)
        requires
            old(self).wf(),
        ensures
            final(self).wf(),
            final(self).exiting == old(self).exiting,
            final(self).io_engine == old(self).io_engine,
            !old(self).pending().contains(timer.key()) ==> {
                &&& res == Err::<(), Error>(Error::NotFound)
                &&& final(self).pending() == old(self).pending()
            },
            old(self).pending().contains(timer.key()) ==> {
                &&& res == Ok::<(), Error>(())
                &&& final(self).pending() == old(self).pending().remove(timer.key())
            },
    {
        let key = (timer.expire, timer.request);
        if self.timers.remove(&key) {
            Ok(())
        } else {
            proof {
                assert(self.timers@ =~= old(self).timers@);
            }
            Err(Error::NotFound)
        }
    }

    /// Runs a cancel token.
    ///
    /// A timer's token takes the timer off the wheel, and fails with
    /// `NotFound`, changing nothing, if the timer is not pending. The token of
    /// a ring operation hands a cancellation that names its request to the
    /// ring, to complete on the no-op request.
    pub fn cancel(&mut self, token: Cancel) -> (res: Result<Cancelled, Error>)
        requires
            old(self).wf(),
        ensures
            final(self).wf(),
            final(self).exiting == old(self).exiting,
            match token {
                Cancel::Timer(timer) => {
                    &&& final(self).io_engine == old(self).io_engine
                    &&& old(self).pending().contains(timer.key()) ==> {
                        &&& res == Ok::<Cancelled, Error>(Cancelled::Interrupted(timer.request))
                        &&& final(self).pending() == old(self).pending().remove(timer.key())
                    }
                    &&& !old(self).pending().contains(timer.key()) ==> {
                        &&& res == Err::<Cancelled, Error>(Error::NotFound)
                        &&& final(self).pending() == old(self).pending()
                    }
                },
                Cancel::Operation(request) => {
                    &&& final(self).pending() == old(self).pending()
                    &&& res.is_ok()
                    &&& res.unwrap() is Submitted
                    &&& final(self).io_engine.inner.queued(
                        &old(self).io_engine.inner,
                        SubmissionEntry {
                            addr: request,
                            user_data: old(self).io_engine.inner.no_op,
                            ..SubmissionEntry::spec_new(OpCode::AsyncCancel)
                        },
                        res.unwrap()->Submitted_0,
                    )
                },
            },
    {
        match token {
            Cancel::Timer(timer) => match self.cancel_timer(timer) {
                Ok(()) => Ok(Cancelled::Interrupted(timer.request)),
                Err(err) => Err(err),
            },
            Cancel::Operation(request) => Ok(
                Cancelled::Submitted(self.io_engine.inner.cancel(request)),
            ),
        }
    }

    /// Takes every timer that is due at `now` off the wheel, in the order of
    /// the wheel. The caller completes the request of each with success.
    ///
    /// No timer fires early: the timers returned are exactly the pending
    /// ones that expire at `now` or before, and exactly the others stay.
    pub fn run_timers(&mut self, now: u64) -> (fired: Vec<Timeout>)
        requires
            old(self).wf(),
        ensures
            final(self).wf(),
            final(self).exiting == old(self).exiting,
            final(self).io_engine == old(self).io_engine,
            spec_in_order(fired@),
            spec_listed(fired@) == spec_due(old(self).pending(), now),
            final(self).pending() == spec_waiting(old(self).pending(), now),
            forall|i: int| 0 <= i < fired@.len() ==> (#[trigger] fired@[i]).expire <= now,
    {
        let mut fired: Vec<Timeout> = Vec::new();
        proof {
            assert(spec_listed(fired@) =~= Set::<(u64, u64)>::empty());
            assert(old(self).timers@ =~= self.timers@.union(spec_listed(fired@)));
        }
        loop
            invariant
                self.wf(),
                self.exiting == old(self).exiting,
                self.io_engine == old(self).io_engine,
                spec_in_order(fired@),
                old(self).timers@ == self.timers@.union(spec_listed(fired@)),
                self.timers@.disjoint(spec_listed(fired@)),
                forall|i: int| 0 <= i < fired@.len() ==> (#[trigger] fired@[i]).expire <= now,
                forall|i: int, t: (u64, u64)|
                    #![trigger fired@[i].key(), self.pending().contains(t)]
                    0 <= i < fired@.len() && self.pending().contains(t) ==> spec_no_later(
                        fired@[i].key(),
                        t,
                    ),
            ensures
                spec_listed(fired@) == spec_due(old(self).pending(), now),
                self.pending() == spec_waiting(old(self).pending(), now),
            decreases self.timers@.len(),
        {
            let least = match first_timer(&self.timers) {
                None => {
                    proof {
                        assert forall|t: (u64, u64)| spec_listed(fired@).contains(t) implies t.0
                            <= now by {
                            let i = lemma_listed_member(fired@, t);
                        }
                        assert(spec_listed(fired@) =~= spec_due(old(self).pending(), now));
                        assert(self.pending() =~= spec_waiting(old(self).pending(), now));
                    }
                    break ;
                },
                Some(least) => least,
            };
            if least.0 > now {
                proof {
                    assert forall|t: (u64, u64)| self.pending().contains(t) implies t.0 > now by {
                        assert(spec_no_later(least, t));
                    }
                    assert forall|t: (u64, u64)| spec_listed(fired@).contains(t) implies t.0
                        <= now by {
                        let i = lemma_listed_member(fired@, t);
                    }
                    assert(spec_listed(fired@) =~= spec_due(old(self).pending(), now));
                    assert(self.pending() =~= spec_waiting(old(self).pending(), now));
                }
                break ;
            }
            let ghost before = self.timers@;
            let ghost listed = fired@;
            let timer = Timeout { expire: least.0, request: least.1 };
            self.timers.remove(&least);
            fired.push(timer);
            proof {
                assert(self.timers@ == before.remove(least));
                assert(timer.key() == least);
                lemma_listed_push(listed, timer);
                assert(old(self).timers@ =~= self.timers@.union(spec_listed(fired@)));
                assert(self.timers@.disjoint(spec_listed(fired@)));
                assert forall|i: int, j: int| 0 <= i < j < fired@.len() implies spec_no_later(
                    #[trigger] fired@[i].key(),
                    #[trigger] fired@[j].key(),
                ) && fired@[i].key() != fired@[j].key() by {
                    if j == fired@.len() - 1 {
                        assert(listed[i] == fired@[i]);
                        assert(before.contains(least));
                        assert(spec_no_later(listed[i].key(), least));
                        assert(spec_listed(listed).contains(listed[i].key()));
                    } else {
                        assert(listed[i] == fired@[i]);
                        assert(listed[j] == fired@[j]);
                    }
                }
                assert forall|i: int, t: (u64, u64)|
                    #![trigger fired@[i].key(), self.timers@.contains(t)]
                    0 <= i < fired@.len() && self.timers@.contains(t) implies spec_no_later(
                    fired@[i].key(),
                    t,
                ) by {
                    assert(before.contains(t));
                    if i < listed.len() {
                        assert(listed[i] == fired@[i]);
                    } else {
                        assert(spec_no_later(least, t));
                    }
                }
            }
        }
        fired
    }

    /// How long the driver may park at `now` before the next timer is due:
    /// until the earliest expiry, not at all if that has passed, and
    /// [`IDLE_WAIT`] when no timer is pending.
    pub fn timer_wait(&self, now: u64) -> (wait: u64)
        requires
            self.wf(),
        ensures
            (forall|t: (u64, u64)| !self.pending().contains(t)) ==> wait == IDLE_WAIT,
            forall|t: (u64, u64)|
                self.pending().contains(t) ==> wait <= if t.0 >= now {
                    t.0 - now
                } else {
                    0
                },
            (exists|t: (u64, u64)| self.pending().contains(t)) ==> exists|t: (u64, u64)|
                self.pending().contains(t) && wait == if t.0 >= now {
                    t.0 - now
                } else {
                    0
                },
    {
        match first_timer(&self.timers) {
            None => IDLE_WAIT,
            Some(least) => {
                proof {
                    assert forall|t: (u64, u64)| self.pending().contains(t) implies least.0
                        <= t.0 by {
                        assert(spec_no_later(least, t));
                    }
                }
                least.0.saturating_sub(now)
            },
        }
    }

    /// Begins the shutdown: from now on new timers are refused, and every
    /// pending timer is taken off the wheel, in the order of the wheel. The
    /// caller completes the request of each with `Shutdown`, then parks until
    /// the engine has no work left, then calls [`Driver::finish_exit`].
    pub fn exit(&mut self) -> (drained: Vec<Timeout>)
        requires
            old(self).wf(),
        ensures
            final(self).wf(),
            final(self).exiting,
            final(self).io_engine == old(self).io_engine,
            spec_in_order(drained@),
            spec_listed(drained@) == old(self).pending(),
            final(self).pending() == Set::<(u64, u64)>::empty(),
    {
        self.exiting = true;
        let drained = self.run_timers(u64::MAX);
        proof {
            assert(spec_due(old(self).pending(), u64::MAX) =~= old(self).pending());
            assert(spec_waiting(old(self).pending(), u64::MAX) =~= Set::<(u64, u64)>::empty());
        }
        drained
    }

    /// Whether the shutdown still has to park: the engine has work left.
    pub fn exit_pending(&self) -> (res: bool)
        ensures
            res == (self.io_engine.inner.to_complete != 0 || self.io_engine.inner.to_submit != 0),
    {
        self.io_engine.has_work()
    }

    /// Ends the shutdown: the driver takes timers again.
    pub fn finish_exit(&mut self)
        ensures
            !final(self).exiting,
            final(self).timers == old(self).timers,
            final(self).io_engine == old(self).io_engine,
    {
        self.exiting = false;
    }
}

} // verus!
