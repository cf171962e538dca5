//! The per-worker context: what a worker is blocked on, and the interrupt
//! protocol with its guards.

use vstd::prelude::*;
use crate::driver::Cancel;
use crate::error::Error;
use crate::future::Progress;

verus! {

/// The runtime's record of one worker.
#[derive(Clone, Copy, Debug, PartialEq, Eq, Structural)]
pub struct Context {
    /// How many interrupt guards are held.
    pub guards: u32,
    /// Whether the worker has been asked to stop.
    pub interrupted: bool,
    /// Whether an interrupt arrived while a guard was held.
    pub pending_interrupt: bool,
    /// The cancel token of the operation the worker is suspended on.
    pub cancel: Option<Cancel>,
}

/// What a worker does after starting an operation.
#[derive(Debug, PartialEq, Eq)]
pub enum Blocked<Output> {
    /// The operation finished inline: go on with its result.
    Ready(Output),
    /// The operation is pending: suspend until its request is completed.
    Suspend,
}

impl Context {
    /// The context of a fresh worker: no guards, no interrupt, not blocked.
    pub open spec fn spec_new() -> Context {
        Context { guards: 0, interrupted: false, pending_interrupt: false, cancel: None }
    }

    /// The context of a fresh worker.
    pub fn new() -> (context: Context)
        ensures
            context == Context::spec_new(),
    {
        Context { guards: 0, interrupted: false, pending_interrupt: false, cancel: None }
    }

    /// Takes note of how an operation started. A pending operation leaves
    /// its cancel token with the context, where an interrupt finds it, and
    /// the worker suspends; one that is done changes nothing.
    pub fn block_on<Output>(&mut self, progress: Progress<Output, Cancel>) -> (blocked: Blocked<
        Output,
    >)
        ensures
            match progress {
                Progress::Done(value) => blocked == Blocked::Ready(value) && *final(self) == *old(
                    self,
                ),
                Progress::Pending(token) => blocked == Blocked::<Output>::Suspend && *final(self)
                    == (Context { cancel: Some(token), ..*old(self) }),
            },
    {
        match progress {
            Progress::Done(value) => Blocked::Ready(value),
            Progress::Pending(token) => {
                self.cancel = Some(token);
                Blocked::Suspend
            },
        }
    }

    /// Takes note that the worker was resumed: it is blocked on nothing.
    pub fn resume(&mut self)
        ensures
            *final(self) == (Context { cancel: None, ..*old(self) }),
    {
        self.cancel = None;
    }

    /// The context after [`Context::interrupt`], and what that returns.
    pub open spec fn spec_interrupt(self) -> (Context, Result<Option<Cancel>, Error>) {
        if self.guards > 0 {
            (Context { pending_interrupt: true, ..self }, Err(Error::Interrupted))
        } else {
            (Context { interrupted: true, cancel: None, ..self }, Ok(self.cancel))
        }
    }

    /// Asks the worker to stop.
    ///
    /// While a guard is held the interrupt is only remembered, and the result
    /// is the error `Interrupted`: the interrupt was prevented. Otherwise the
    /// worker is marked interrupted and gives up the cancel token of the
    /// operation it is suspended on, if any; the caller runs the token and
    /// reports what that returns.
    pub fn interrupt(&mut self) -> (res: Result<Option<Cancel>, Error>)
        ensures
            (*final(self), res) == old(self).spec_interrupt(),
    {
        if self.guards > 0 {
            if !self.pending_interrupt {
                self.pending_interrupt = true;
            }
            Err(Error::Interrupted)
        } else {
            self.interrupted = true;
            let token = self.cancel;
            self.cancel = None;
            Ok(token)
        }
    }

    /// Whether the worker has been asked to stop.
    pub fn interrupted(&self) -> (res: bool)
        ensures
            res == self.interrupted,
    {
        self.interrupted
    }

    /// Forgets every interrupt, delivered or pending.
    pub fn clear_interrupt(&mut self)
        ensures
            *final(self) == (Context {
                interrupted: false,
                pending_interrupt: false,
                ..*old(self)
            }),
    {
        self.interrupted = false;
        self.pending_interrupt = false;
    }

    /// The context after `count` guards are taken, or given back if `count`
    /// is negative. When the last guard is given back, an interrupt that was
    /// prevented meanwhile is delivered.
    pub open spec fn spec_interrupt_guard(self, count: i32) -> Context {
        let guards = (self.guards + count) as u32;
        if guards == 0 && self.pending_interrupt {
            Context { guards, interrupted: true, pending_interrupt: false, ..self }
        } else {
            Context { guards, ..self }
        }
    }

    /// Takes `count` interrupt guards, or gives back `-count` of them; see
    /// [`Context::spec_interrupt_guard`]. The count of guards held must stay
    /// within its range.
    pub fn interrupt_guard(&mut self, count: i32)
        requires
            0 <= old(self).guards + count <= u32::MAX,
        ensures
            *final(self) == old(self).spec_interrupt_guard(count),
    {
        self.guards = if count >= 0 {
            self.guards + (count as u32)
        } else {
            self.guards - ((-(count as i64)) as u32)
        };
        if self.guards == 0 && self.pending_interrupt {
            self.interrupted = true;
            self.pending_interrupt = false;
        }
    }

    /// Fails with `Interrupted` exactly when the worker has been asked to
    /// stop.
    pub fn check_interrupt(&self) -> (res: Result<(), Error>)
        ensures
            res == if self.interrupted {
                Err::<(), Error>(Error::Interrupted)
            } else {
                Ok::<(), Error>(())
            },
    {
        if self.interrupted {
            Err(Error::Interrupted)
        } else {
            Ok(())
        }
    }

    /// The context after [`Context::take_interrupt`], and what that returns.
    pub open spec fn spec_take_interrupt(self) -> (Context, bool) {
        (Context { interrupted: false, ..self }, self.interrupted)
    }

    /// Reads and clears the mark that the worker has been asked to stop.
    pub fn take_interrupt(&mut self) -> (was: bool)
        ensures
            (*final(self), was) == old(self).spec_take_interrupt(),
    {
        let was = self.interrupted;
        self.interrupted = false;
        was
    }

    /// Like [`Context::check_interrupt`], and clears the mark.
    pub fn check_interrupt_take(&mut self) -> (res: Result<(), Error>)
        ensures
            *final(self) == old(self).spec_take_interrupt().0,
            res == if old(self).interrupted {
                Err::<(), Error>(Error::Interrupted)
            } else {
                Ok::<(), Error>(())
            },
    {
        if self.take_interrupt() {
            Err(Error::Interrupted)
        } else {
            Ok(())
        }
    }

    /// Reads a byte count that an I/O operation returned: a count of zero
    /// from a worker that has been asked to stop is the error `Interrupted`.
    pub fn check_interrupt_if_zero(&self, count: usize) -> (res: Result<usize, Error>)
        ensures
            res == if count == 0 && self.interrupted {
                Err::<usize, Error>(Error::Interrupted)
            } else {
                Ok::<usize, Error>(count)
            },
    {
        if count != 0 {
            return Ok(count);
        }
        match self.check_interrupt() {
            Ok(()) => Ok(0),
            Err(err) => Err(err),
        }
    }
}

/// Taking the interrupt a second time finds none, and changes nothing more.
pub proof fn lemma_take_interrupt_idempotent(context: Context)
    ensures
        !context.spec_take_interrupt().0.spec_take_interrupt().1,
        context.spec_take_interrupt().0.spec_take_interrupt().0
            == context.spec_take_interrupt().0,
        !context.interrupted ==> context.spec_take_interrupt() == (context, false),
{
}

/// Guards that are taken and given back leave the count of guards as it was:
/// a task body that pairs them enters and leaves with the same count, with
/// zero if it began with zero.
pub proof fn lemma_guards_balance(context: Context, count: i32)
    requires
        0 <= count,
        context.guards + count <= u32::MAX,
    ensures
        context.spec_interrupt_guard(count).spec_interrupt_guard((-count) as i32).guards
            == context.guards,
        Context::spec_new().guards == 0,
{
}

/// An interrupt that arrives while a guard is held is not lost: it is
/// delivered when the last guard is given back, and not before.
pub proof fn lemma_guard_defers_interrupt(context: Context)
    requires
        context.guards == 0,
        !context.interrupted,
        !context.pending_interrupt,
    ensures
        ({
            let guarded = context.spec_interrupt_guard(1);
            let (prevented, res) = guarded.spec_interrupt();
            &&& res == Err::<Option<Cancel>, Error>(Error::Interrupted)
            &&& !prevented.interrupted
            &&& prevented.cancel == context.cancel
            &&& prevented.spec_interrupt_guard(-1i32).interrupted
            &&& !prevented.spec_interrupt_guard(-1i32).pending_interrupt
        }),
{
}

} // verus!
