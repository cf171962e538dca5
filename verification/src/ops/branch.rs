//! Branching: racing two tasks, joining two tasks, and handing the result of
//! a spawned task to whoever waits for it.
//!
//! Each combinator is a small machine. The scheduler starts the tasks and
//! runs the cancel tokens; the machine is told what happened and says what
//! comes next.

use vstd::prelude::*;
use crate::future::Progress;

verus! {

/// One of the two tasks of a combinator.
#[derive(Clone, Copy, Debug, PartialEq, Eq, Structural)]
pub enum Branch {
    First,
    Second,
}

/// The outcome of a race: the result of the task that finished first, and
/// the result of the other one if it was started at all.
#[derive(Debug, PartialEq, Eq)]
pub enum Select<O1, O2> {
    First(O1, Option<O2>),
    Second(O2, Option<O1>),
}

impl<O> Select<O, O> {
    /// The result of the task that finished first.
    pub fn flatten(self) -> (output: O)
        ensures
            output == match self {
                Select::First(output, _) => output,
                Select::Second(output, _) => output,
            },
    {
        match self {
            Select::First(output, _) => output,
            Select::Second(output, _) => output,
        }
    }
}

/// The results of two joined tasks.
#[derive(Debug, PartialEq, Eq)]
pub struct Join<O1, O2>(pub O1, pub O2);

impl<O1, O2, E> Join<Result<O1, E>, Result<O2, E>> {
    /// Both values if both tasks succeeded, else the error of the first task
    /// that failed, in the order of the tasks.
    pub fn flatten(self) -> (res: Result<(O1, O2), E>)
        ensures
            res == match self {
                Join(Ok(first), Ok(second)) => Ok::<(O1, O2), E>((first, second)),
                Join(Err(err), _) => Err::<(O1, O2), E>(err),
                Join(Ok(_), Err(err)) => Err::<(O1, O2), E>(err),
            },
    {
        match self {
            Join(Ok(first), Ok(second)) => Ok((first, second)),
            Join(Err(err), _) => Err(err),
            Join(Ok(_), Err(err)) => Err(err),
        }
    }
}

/// Where a race stands.
#[derive(Clone, Copy, Debug, PartialEq, Eq, Structural)]
pub enum SelectPhase {
    /// Nothing was started.
    Init,
    /// The first task is pending; the second is to be started.
    FirstPending,
    /// The second task finished while it was started, and the first task's
    /// cancel token is running.
    SyncCancel,
    /// Both tasks are pending.
    BothPending,
    /// The named task finished first; the other was cancelled and has yet to
    /// complete.
    Cancelling(Branch),
    /// The race is over.
    Finished,
}

/// What the scheduler does next in a race.
#[derive(Debug, PartialEq, Eq)]
pub enum SelectStep<O1, O2, C1, C2> {
    /// Start the second task and report how it started.
    StartSecond,
    /// Run the first task's cancel token.
    CancelFirst(C1),
    /// Run the second task's cancel token.
    CancelSecond(C2),
    /// Nothing: a completion will move the race on.
    Pending,
    /// The race is over, with this outcome.
    Done(Select<O1, O2>),
}

/// The state of a race between two tasks.
#[derive(Debug)]
pub struct SelectData<O1, O2, C1, C2> {
    pub phase: SelectPhase,
    /// The result of the first task, once it has one.
    pub first: Option<O1>,
    /// The result of the second task, once it has one.
    pub second: Option<O2>,
    /// The cancel token of the first task, while it may be needed.
    pub cancel_1: Option<C1>,
    /// The cancel token of the second task, while it may be needed.
    pub cancel_2: Option<C2>,
}

impl<O1, O2, C1, C2> SelectData<O1, O2, C1, C2> {
    /// The race holds exactly what its phase needs: the tokens of the tasks
    /// that may still be cancelled, and the results that are in and not yet
    /// handed out.
    pub open spec fn wf(&self) -> bool {
        match self.phase {
            SelectPhase::Init | SelectPhase::Finished => {
                &&& self.first.is_none()
                &&& self.second.is_none()
                &&& self.cancel_1.is_none()
                &&& self.cancel_2.is_none()
            },
            SelectPhase::FirstPending => {
                &&& self.first.is_none()
                &&& self.second.is_none()
                &&& self.cancel_1.is_some()
                &&& self.cancel_2.is_none()
            },
            SelectPhase::SyncCancel => {
                &&& self.second.is_some()
                &&& self.cancel_1.is_none()
                &&& self.cancel_2.is_none()
            },
            SelectPhase::BothPending => {
                &&& self.first.is_none()
                &&& self.second.is_none()
                &&& self.cancel_1.is_some()
                &&& self.cancel_2.is_some()
            },
            SelectPhase::Cancelling(Branch::First) => {
                &&& self.first.is_some()
                &&& self.second.is_none()
                &&& self.cancel_1.is_none()
                &&& self.cancel_2.is_none()
            },
            SelectPhase::Cancelling(Branch::Second) => {
                &&& self.first.is_none()
                &&& self.second.is_some()
                &&& self.cancel_1.is_none()
                &&& self.cancel_2.is_none()
            },
        }
    }

    /// The race in the phase `phase` with nothing held.
    pub open spec fn spec_empty(phase: SelectPhase) -> Self {
        SelectData { phase, first: None, second: None, cancel_1: None, cancel_2: None }
    }

    /// A race that has not begun. The scheduler starts the first task and
    /// reports to [`SelectData::started_first`].
    pub fn new() -> (data: Self)
        ensures
            data == Self::spec_empty(SelectPhase::Init),
            data.wf(),
    {
        SelectData {
            phase: SelectPhase::Init,
            first: None,
            second: None,
            cancel_1: None,
            cancel_2: None,
        }
    }

    /// The first task was started.
    ///
    /// If it finished inline the race is over: the first task won and the
    /// second is never started. Otherwise its token is kept and the second
    /// task is started next.
    pub fn started_first(&mut self, progress: Progress<O1, C1>) -> (step: SelectStep<
        O1,
        O2,
        C1,
        C2,
    >)
        requires
            old(self).wf(),
            old(self).phase == SelectPhase::Init,
        ensures
            final(self).wf(),
            match progress {
                Progress::Done(value) => {
                    &&& step == SelectStep::<O1, O2, C1, C2>::Done(Select::First(value, None))
                    &&& *final(self) == Self::spec_empty(SelectPhase::Finished)
                },
                Progress::Pending(token) => {
                    &&& step == SelectStep::<O1, O2, C1, C2>::StartSecond
                    &&& *final(self) == (SelectData {
                        phase: SelectPhase::FirstPending,
                        cancel_1: Some(token),
                        ..*old(self)
                    })
                },
            },
    {
        match progress {
            Progress::Done(value) => {
                self.phase = SelectPhase::Finished;
                SelectStep::Done(Select::First(value, None))
            },
            Progress::Pending(token) => {
                self.phase = SelectPhase::FirstPending;
                self.cancel_1 = Some(token);
                SelectStep::StartSecond
            },
        }
    }

    /// The second task was started, while the first is pending.
    ///
    /// If it is pending too, both tokens are kept and the race waits. If it
    /// finished inline it has won, but the race is not over yet: the first
    /// task has to be cancelled and to complete. The scheduler runs the token
    /// and then calls [`SelectData::cancelled`].
    pub fn started_second(&mut self, progress: Progress<O2, C2>) -> (step: SelectStep<
        O1,
        O2,
        C1,
        C2,
    >)
        requires
            old(self).wf(),
            old(self).phase == SelectPhase::FirstPending,
        ensures
            final(self).wf(),
            match progress {
                Progress::Done(value) => {
                    &&& step == SelectStep::<O1, O2, C1, C2>::CancelFirst(
                        old(self).cancel_1.unwrap(),
                    )
                    &&& *final(self) == (SelectData {
                        phase: SelectPhase::SyncCancel,
                        second: Some(value),
                        ..Self::spec_empty(SelectPhase::SyncCancel)
                    })
                },
                Progress::Pending(token) => {
                    &&& step == SelectStep::<O1, O2, C1, C2>::Pending
                    &&& *final(self) == (SelectData {
                        phase: SelectPhase::BothPending,
                        cancel_2: Some(token),
                        ..*old(self)
                    })
                },
            },
    {
        match progress {
            Progress::Done(value) => {
                self.phase = SelectPhase::SyncCancel;
                self.second = Some(value);
                let token = self.cancel_1.take().unwrap();
                SelectStep::CancelFirst(token)
            },
            Progress::Pending(token) => {
                self.phase = SelectPhase::BothPending;
                self.cancel_2 = Some(token);
                SelectStep::Pending
            },
        }
    }

    /// The first task's cancel token has returned, after the second task
    /// finished inline.
    ///
    /// If the first task completed while its token ran, the race is over:
    /// the second task won and the first one's result comes second.
    /// Otherwise the race waits for the first task to complete.
    pub fn cancelled(&mut self) -> (step: SelectStep<O1, O2, C1, C2>)
        requires
            old(self).wf(),
            old(self).phase == SelectPhase::SyncCancel,
        ensures
            final(self).wf(),
            old(self).first.is_some() ==> {
                &&& step == SelectStep::<O1, O2, C1, C2>::Done(
                    Select::Second(old(self).second.unwrap(), old(self).first),
                )
                &&& *final(self) == Self::spec_empty(SelectPhase::Finished)
            },
            old(self).first.is_none() ==> {
                &&& step == SelectStep::<O1, O2, C1, C2>::Pending
                &&& *final(self) == (SelectData {
                    phase: SelectPhase::Cancelling(Branch::Second),
                    ..*old(self)
                })
            },
    {
        if self.first.is_some() {
            self.phase = SelectPhase::Finished;
            let first = self.first.take();
            let second = self.second.take().unwrap();
            SelectStep::Done(Select::Second(second, first))
        } else {
            self.phase = SelectPhase::Cancelling(Branch::Second);
            SelectStep::Pending
        }
    }

    /// Whether the race expects the first task to complete.
    pub open spec fn spec_awaits_first(&self) -> bool {
        ||| self.phase == SelectPhase::BothPending
        ||| self.phase == SelectPhase::Cancelling(Branch::Second)
        ||| self.phase == SelectPhase::SyncCancel && self.first.is_none()
    }

    /// Whether the race expects the first task to complete: it is pending
    /// and has not completed.
    pub fn awaits_first(&self) -> (res: bool)
        ensures
            res == self.spec_awaits_first(),
    {
        match self.phase {
            SelectPhase::BothPending => true,
            SelectPhase::Cancelling(Branch::Second) => true,
            SelectPhase::SyncCancel => self.first.is_none(),
            _ => false,
        }
    }

    /// Whether the race expects the second task to complete.
    pub open spec fn spec_awaits_second(&self) -> bool {
        ||| self.phase == SelectPhase::BothPending
        ||| self.phase == SelectPhase::Cancelling(Branch::First)
    }

    /// Whether the race expects the second task to complete: it is pending
    /// and has not completed.
    pub fn awaits_second(&self) -> (res: bool)
        ensures
            res == self.spec_awaits_second(),
    {
        match self.phase {
            SelectPhase::BothPending => true,
            SelectPhase::Cancelling(Branch::First) => true,
            _ => false,
        }
    }

    /// The first task's request was completed with `value`. A task completes
    /// once: the race must be expecting it.
    ///
    /// If the second task is still running, the first has won and the second
    /// is cancelled. If the second won before, the race is over and the
    /// first one's result comes second. While the first task's own token is
    /// running the result is only kept, for [`SelectData::cancelled`].
    pub fn complete_first(&mut self, value: O1) -> (step: SelectStep<O1, O2, C1, C2>)
        requires
            old(self).wf(),
            old(self).spec_awaits_first(),
        ensures
            final(self).wf(),
            !final(self).spec_awaits_first(),
            match old(self).phase {
                SelectPhase::BothPending => {
                    &&& step == SelectStep::<O1, O2, C1, C2>::CancelSecond(
                        old(self).cancel_2.unwrap(),
                    )
                    &&& *final(self) == (SelectData {
                        phase: SelectPhase::Cancelling(Branch::First),
                        first: Some(value),
                        ..Self::spec_empty(SelectPhase::Init)
                    })
                },
                SelectPhase::SyncCancel => {
                    &&& step == SelectStep::<O1, O2, C1, C2>::Pending
                    &&& *final(self) == (SelectData { first: Some(value), ..*old(self) })
                },
                _ => {
                    &&& step == SelectStep::<O1, O2, C1, C2>::Done(
                        Select::Second(old(self).second.unwrap(), Some(value)),
                    )
                    &&& *final(self) == Self::spec_empty(SelectPhase::Finished)
                },
            },
    {
        match self.phase {
            SelectPhase::BothPending => {
                self.phase = SelectPhase::Cancelling(Branch::First);
                self.first = Some(value);
                self.cancel_1 = None;
                let token = self.cancel_2.take().unwrap();
                SelectStep::CancelSecond(token)
            },
            SelectPhase::SyncCancel => {
                self.first = Some(value);
                SelectStep::Pending
            },
            _ => {
                self.phase = SelectPhase::Finished;
                let second = self.second.take().unwrap();
                SelectStep::Done(Select::Second(second, Some(value)))
            },
        }
    }

    /// The second task's request was completed with `value`. A task
    /// completes once: the race must be expecting it.
    ///
    /// If the first task is still running, the second has won and the first
    /// is cancelled. If the first won before, the race is over and the
    /// second one's result comes second.
    pub fn complete_second(&mut self, value: O2) -> (step: SelectStep<O1, O2, C1, C2>)
        requires
            old(self).wf(),
            old(self).spec_awaits_second(),
        ensures
            final(self).wf(),
            !final(self).spec_awaits_second(),
            match old(self).phase {
                SelectPhase::BothPending => {
                    &&& step == SelectStep::<O1, O2, C1, C2>::CancelFirst(
                        old(self).cancel_1.unwrap(),
                    )
                    &&& *final(self) == (SelectData {
                        phase: SelectPhase::Cancelling(Branch::Second),
                        second: Some(value),
                        ..Self::spec_empty(SelectPhase::Init)
                    })
                },
                _ => {
                    &&& step == SelectStep::<O1, O2, C1, C2>::Done(
                        Select::First(old(self).first.unwrap(), Some(value)),
                    )
                    &&& *final(self) == Self::spec_empty(SelectPhase::Finished)
                },
            },
    {
        match self.phase {
            SelectPhase::BothPending => {
                self.phase = SelectPhase::Cancelling(Branch::Second);
                self.second = Some(value);
                self.cancel_2 = None;
                let token = self.cancel_1.take().unwrap();
                SelectStep::CancelFirst(token)
            },
            _ => {
                self.phase = SelectPhase::Finished;
                let first = self.first.take().unwrap();
                SelectStep::Done(Select::First(first, Some(value)))
            },
        }
    }
}

/// Where a join stands.
#[derive(Clone, Copy, Debug, PartialEq, Eq, Structural)]
pub enum JoinPhase {
    /// Nothing was started.
    Init,
    /// The first task was started; the second is to be started.
    FirstStarted,
    /// Both tasks were started and at least one has yet to complete.
    Waiting,
    /// The join is over.
    Finished,
}

/// What the scheduler does next in a join.
#[derive(Debug, PartialEq, Eq)]
pub enum JoinStep<O1, O2> {
    /// Start the second task and report how it started.
    StartSecond,
    /// Nothing: a completion will move the join on.
    Pending,
    /// Both tasks are done, with these results.
    Done(Join<O1, O2>),
}

/// The state of a join of two tasks.
#[derive(Debug)]
pub struct JoinData<O1, O2> {
    pub phase: JoinPhase,
    /// The result of the first task, once it has one.
    pub first: Option<O1>,
    /// The result of the second task, once it has one.
    pub second: Option<O2>,
}

impl<O1, O2> JoinData<O1, O2> {
    /// The join holds the results that are in, and while it waits at least
    /// one is missing.
    pub open spec fn wf(&self) -> bool {
        match self.phase {
            JoinPhase::Init | JoinPhase::Finished => self.first.is_none() && self.second.is_none(),
            JoinPhase::FirstStarted => self.second.is_none(),
            JoinPhase::Waiting => self.first.is_none() || self.second.is_none(),
        }
    }

    /// A join that has not begun. The scheduler starts the first task and
    /// reports to [`JoinData::started_first`].
    pub fn new() -> (data: Self)
        ensures
            data == (JoinData::<O1, O2> { phase: JoinPhase::Init, first: None, second: None }),
            data.wf(),
    {
        JoinData { phase: JoinPhase::Init, first: None, second: None }
    }

    /// The first task was started. Its result is kept if it finished inline;
    /// either way the second task is started next.
    pub fn started_first<C1>(&mut self, progress: Progress<O1, C1>) -> (step: JoinStep<O1, O2>)
        requires
            old(self).wf(),
            old(self).phase == JoinPhase::Init,
        ensures
            final(self).wf(),
            step == JoinStep::<O1, O2>::StartSecond,
            *final(self) == (JoinData::<O1, O2> {
                phase: JoinPhase::FirstStarted,
                first: match progress {
                    Progress::Done(value) => Some(value),
                    Progress::Pending(_) => None,
                },
                second: None,
            }),
    {
        self.phase = JoinPhase::FirstStarted;
        match progress {
            Progress::Done(value) => {
                self.first = Some(value);
            },
            Progress::Pending(_) => {},
        }
        JoinStep::StartSecond
    }

    /// The second task was started. If both tasks finished inline the join
    /// is over at once; otherwise it waits for what is missing.
    pub fn started_second<C2>(&mut self, progress: Progress<O2, C2>) -> (step: JoinStep<O1, O2>)
        requires
            old(self).wf(),
            old(self).phase == JoinPhase::FirstStarted,
        ensures
            final(self).wf(),
            match (old(self).first, progress) {
                (Some(first), Progress::Done(second)) => {
                    &&& step == JoinStep::Done(Join(first, second))
                    &&& *final(self) == (JoinData::<O1, O2> {
                        phase: JoinPhase::Finished,
                        first: None,
                        second: None,
                    })
                },
                (None, Progress::Done(second)) => {
                    &&& step == JoinStep::<O1, O2>::Pending
                    &&& *final(self) == (JoinData::<O1, O2> {
                        phase: JoinPhase::Waiting,
                        first: None,
                        second: Some(second),
                    })
                },
                (first, Progress::Pending(_)) => {
                    &&& step == JoinStep::<O1, O2>::Pending
                    &&& *final(self) == (JoinData::<O1, O2> {
                        phase: JoinPhase::Waiting,
                        first,
                        second: None,
                    })
                },
            },
    {
        match progress {
            Progress::Done(second) => {
                if self.first.is_some() {
                    self.phase = JoinPhase::Finished;
                    let first = self.first.take().unwrap();
                    JoinStep::Done(Join(first, second))
                } else {
                    self.phase = JoinPhase::Waiting;
                    self.second = Some(second);
                    JoinStep::Pending
                }
            },
            Progress::Pending(_) => {
                self.phase = JoinPhase::Waiting;
                JoinStep::Pending
            },
        }
    }

    /// The first task's request was completed with `value`. A task completes
    /// once: its result must be missing. The join is over if the second
    /// task's result is in, else it goes on waiting.
    pub fn complete_first(&mut self, value: O1) -> (step: JoinStep<O1, O2>)
        requires
            old(self).wf(),
            old(self).phase == JoinPhase::Waiting,
            old(self).first.is_none(),
        ensures
            final(self).wf(),
            match old(self).second {
                Some(second) => {
                    &&& step == JoinStep::Done(Join(value, second))
                    &&& *final(self) == (JoinData::<O1, O2> {
                        phase: JoinPhase::Finished,
                        first: None,
                        second: None,
                    })
                },
                None => {
                    &&& step == JoinStep::<O1, O2>::Pending
                    &&& *final(self) == (JoinData::<O1, O2> {
                        phase: JoinPhase::Waiting,
                        first: Some(value),
                        second: None,
                    })
                },
            },
    {
        if self.second.is_some() {
            self.phase = JoinPhase::Finished;
            let second = self.second.take().unwrap();
            JoinStep::Done(Join(value, second))
        } else {
            self.first = Some(value);
            JoinStep::Pending
        }
    }

    /// The second task's request was completed with `value`. A task
    /// completes once: its result must be missing. The join is over if the
    /// first task's result is in, else it goes on waiting.
    pub fn complete_second(&mut self, value: O2) -> (step: JoinStep<O1, O2>)
        requires
            old(self).wf(),
            old(self).phase == JoinPhase::Waiting,
            old(self).second.is_none(),
        ensures
            final(self).wf(),
            match old(self).first {
                Some(first) => {
                    &&& step == JoinStep::Done(Join(first, value))
                    &&& *final(self) == (JoinData::<O1, O2> {
                        phase: JoinPhase::Finished,
                        first: None,
                        second: None,
                    })
                },
                None => {
                    &&& step == JoinStep::<O1, O2>::Pending
                    &&& *final(self) == (JoinData::<O1, O2> {
                        phase: JoinPhase::Waiting,
                        first: None,
                        second: Some(value),
                    })
                },
            },
    {
        if self.first.is_some() {
            self.phase = JoinPhase::Finished;
            let first = self.first.take().unwrap();
            JoinStep::Done(Join(first, value))
        } else {
            self.second = Some(value);
            JoinStep::Pending
        }
    }
}

/// What a spawned task and the holder of its handle know of each other.
#[derive(Debug)]
pub struct JoinHandle<Output> {
    /// The task's result, if it finished before anyone waited.
    pub result: Option<Output>,
    /// The address of the request that waits for the result.
    pub waiter: Option<u64>,
    /// Whether the task has finished.
    pub finished: bool,
}

impl<Output> JoinHandle<Output> {
    /// A result is only kept once the task has finished, and then nobody
    /// waits.
    pub open spec fn wf(&self) -> bool {
        &&& self.result.is_some() ==> self.finished
        &&& self.finished ==> self.waiter.is_none()
    }

    /// The handle of a task that was just spawned.
    pub fn new() -> (handle: Self)
        ensures
            handle == (JoinHandle::<Output> { result: None, waiter: None, finished: false }),
            handle.wf(),
    {
        JoinHandle { result: None, waiter: None, finished: false }
    }

    /// The task finished with `value`. A task finishes once. If a request
    /// waits, the result goes straight to it; else it is kept for whoever
    /// waits later.
    pub fn complete(&mut self, value: Output) -> (forward: Option<(u64, Output)>)
        requires
            old(self).wf(),
            !old(self).finished,
        ensures
            final(self).wf(),
            final(self).finished,
            final(self).waiter.is_none(),
            match old(self).waiter {
                Some(request) => forward == Some((request, value)) && final(self).result.is_none(),
                None => forward.is_none() && final(self).result == Some(value),
            },
    {
        self.finished = true;
        match self.waiter.take() {
            Some(request) => Some((request, value)),
            None => {
                self.result = Some(value);
                None
            },
        }
    }

    /// The request at the address `request` waits for the task's result. If
    /// the result is in, the wait is done with it at once; else the request
    /// is registered and the token that cancels the wait is the request's
    /// own address.
    pub fn wait(&mut self, request: u64) -> (progress: Progress<Output, u64>)
        requires
            old(self).wf(),
            old(self).waiter.is_none(),
            old(self).finished ==> old(self).result.is_some(),
        ensures
            final(self).wf(),
            final(self).finished == old(self).finished,
            match old(self).result {
                Some(value) => {
                    &&& progress == Progress::<Output, u64>::Done(value)
                    &&& final(self).result.is_none()
                    &&& final(self).waiter.is_none()
                },
                None => {
                    &&& progress == Progress::<Output, u64>::Pending(request)
                    &&& final(self).result.is_none()
                    &&& final(self).waiter == Some(request)
                },
            },
    {
        match self.result.take() {
            Some(value) => Progress::Done(value),
            None => {
                self.waiter = Some(request);
                Progress::Pending(request)
            },
        }
    }
}

} // verus!
