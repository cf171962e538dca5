//! The runtime: the driver and the workers that live on it.

use vstd::prelude::*;
use crate::async_runtime::Context;
use crate::driver::{Cancel, Driver, Timeout, spec_in_order, spec_listed};
use crate::error::Error;

verus! {

/// A worker as the runtime keeps track of it.
#[derive(Clone, Copy, Debug, PartialEq, Eq, Structural)]
pub struct PulseWorker {
    /// What tells the worker from all others: the address of its stack.
    pub id: u64,
    /// The worker's interrupt state and what it is blocked on.
    pub context: Context,
}

impl PulseWorker {
    /// A fresh worker.
    pub fn new(id: u64) -> (worker: PulseWorker)
        ensures
            worker == (PulseWorker { id, context: Context::spec_new() }),
    {
        PulseWorker { id, context: Context::new() }
    }
}

/// What one pass of the teardown asks of the scheduler.
#[derive(Debug)]
pub struct Teardown {
    /// For each worker that was alive, in the order of the list, the answer
    /// to its interrupt: the cancel token to run, if the worker was blocked
    /// and not guarded.
    pub interrupts: Vec<Result<Option<Cancel>, Error>>,
    /// The timers to complete with `Shutdown`.
    pub drained: Vec<Timeout>,
}

/// The context of every worker after each was interrupted.
pub open spec fn spec_interrupted(workers: Seq<PulseWorker>) -> Seq<PulseWorker> {
    Seq::new(
        workers.len(),
        |i: int| PulseWorker { id: workers[i].id, context: workers[i].context.spec_interrupt().0 },
    )
}

/// The answers to interrupting every worker.
pub open spec fn spec_interrupts(workers: Seq<PulseWorker>) -> Seq<Result<Option<Cancel>, Error>> {
    Seq::new(workers.len(), |i: int| workers[i].context.spec_interrupt().1)
}

/// The runtime's own state.
pub struct Runtime {
    pub driver: Driver,
    /// The workers that are alive, oldest first.
    pub workers: Vec<PulseWorker>,
}

impl Runtime {
    /// The driver is well formed and no two workers share an identity.
    pub open spec fn wf(&self) -> bool {
        &&& self.driver.wf()
        &&& forall|i: int, j: int|
            0 <= i < j < self.workers@.len() ==> (#[trigger] self.workers@[i]).id != (
            #[trigger] self.workers@[j]).id
    }

    /// Whether a worker with the identity `id` is alive.
    pub open spec fn spec_alive(&self, id: u64) -> bool {
        exists|i: int| 0 <= i < self.workers@.len() && (#[trigger] self.workers@[i]).id == id
    }

    /// A runtime on `driver`, without workers.
    pub fn new(driver: Driver) -> (runtime: Runtime)
        requires
            driver.wf(),
        ensures
            runtime.wf(),
            runtime.driver == driver,
            runtime.workers@ == Seq::<PulseWorker>::empty(),
    {
        Runtime { driver, workers: Vec::new() }
    }

    /// Where the worker with the identity `id` is in the list.
    fn position(&self, id: u64) -> (index: Option<usize>)
        ensures
            match index {
                Some(i) => i < self.workers@.len() && self.workers@[i as int].id == id,
                None => !self.spec_alive(id),
            },
    {
        let mut i: usize = 0;
        while i < self.workers.len()
            invariant
                i <= self.workers@.len(),
                forall|k: int| 0 <= k < i ==> (#[trigger] self.workers@[k]).id != id,
            decreases self.workers@.len() - i,
        {
            if self.workers[i].id == id {
                return Some(i);
            }
            i += 1;
        }
        None
    }

    /// Takes a new worker into the list, behind all the others. Returns
    /// `false`, and changes nothing, if a worker with this identity is alive.
    pub fn spawn(&mut self, id: u64) -> (spawned: bool)
        requires
            old(self).wf(),
        ensures
            final(self).wf(),
            final(self).driver == old(self).driver,
            spawned == !old(self).spec_alive(id),
            spawned ==> final(self).workers@ == old(self).workers@.push(
                PulseWorker { id, context: Context::spec_new() },
            ),
            !spawned ==> final(self).workers@ == old(self).workers@,
    {
        match self.position(id) {
            Some(_) => false,
            None => {
                self.workers.push(PulseWorker::new(id));
                true
            },
        }
    }

    /// Takes the worker with the identity `id` out of the list when its task
    /// has finished, and returns its context as the task left it. `None`, and
    /// no change, if no such worker is alive.
    pub fn finish(&mut self, id: u64) -> (context: Option<Context>)
        requires
            old(self).wf(),
        ensures
            final(self).wf(),
            final(self).driver == old(self).driver,
            context.is_some() == old(self).spec_alive(id),
            !final(self).spec_alive(id),
            match context {
                None => final(self).workers@ == old(self).workers@,
                Some(context) => exists|i: int|
                    0 <= i < old(self).workers@.len() && #[trigger] old(self).workers@[i]
                        == (PulseWorker { id, context }) && final(self).workers@ == old(
                        self,
                    ).workers@.remove(i),
            },
    {
        match self.position(id) {
            None => None,
            Some(i) => {
                let worker = self.workers.remove(i);
                proof {
                    assert forall|k: int| 0 <= k < self.workers@.len() implies (
                    #[trigger] self.workers@[k]).id != id by {
                        if k < i {
                            assert(self.workers@[k] == old(self).workers@[k]);
                        } else {
                            assert(self.workers@[k] == old(self).workers@[k + 1]);
                        }
                    }
                    assert(old(self).workers@[i as int] == worker);
                }
                Some(worker.context)
            },
        }
    }

    /// Asks the worker with the identity `id` to stop, as the holder of its
    /// handle does to cancel it; see [`Context::interrupt`]. `None`, and no
    /// change, if no such worker is alive.
    pub fn interrupt(&mut self, id: u64) -> (answer: Option<Result<Option<Cancel>, Error>>)
        requires
            old(self).wf(),
        ensures
            final(self).wf(),
            final(self).driver == old(self).driver,
            answer.is_some() == old(self).spec_alive(id),
            match answer {
                None => final(self).workers@ == old(self).workers@,
                Some(res) => exists|i: int|
                    0 <= i < old(self).workers@.len() && (#[trigger] old(self).workers@[i]).id
                        == id && res == old(self).workers@[i].context.spec_interrupt().1
                        && final(self).workers@ == old(self).workers@.update(
                        i,
                        PulseWorker {
                            id,
                            context: old(self).workers@[i].context.spec_interrupt().0,
                        },
                    ),
            },
    {
        match self.position(id) {
            None => None,
            Some(i) => {
                let mut worker = self.workers[i];
                let res = worker.context.interrupt();
                self.workers[i] = worker;
                proof {
                    assert(old(self).workers@[i as int].id == id);
                }
                Some(res)
            },
        }
    }

    /// One pass of the teardown. With no worker alive there is nothing to do
    /// and the result is `None`. Otherwise every worker is interrupted, in
    /// the order of the list, and the driver begins to exit: the scheduler
    /// runs the cancel tokens, completes the drained timers with `Shutdown`,
    /// parks until the engine is idle, ends the driver's exit, and comes back
    /// for another pass.
    pub fn teardown(&mut self) -> (pass: Option<Teardown>)
        requires
            old(self).wf(),
        ensures
            final(self).wf(),
            pass.is_none() == (old(self).workers@.len() == 0),
            pass.is_none() ==> final(self).workers@ == old(self).workers@ && final(self).driver
                == old(self).driver,
            pass.is_some() ==> {
                &&& final(self).workers@ == spec_interrupted(old(self).workers@)
                &&& pass.unwrap().interrupts@ == spec_interrupts(old(self).workers@)
                &&& final(self).driver.exiting
                &&& final(self).driver.io_engine == old(self).driver.io_engine
                &&& final(self).driver.pending() == Set::<(u64, u64)>::empty()
                &&& spec_in_order(pass.unwrap().drained@)
                &&& spec_listed(pass.unwrap().drained@) == old(self).driver.pending()
            },
    {
        if self.workers.len() == 0 {
            return None;
        }
        let mut interrupts: Vec<Result<Option<Cancel>, Error>> = Vec::new();
        let mut i: usize = 0;
        while i < self.workers.len()
            invariant
                i <= self.workers@.len(),
                self.workers@.len() == old(self).workers@.len(),
                self.driver == old(self).driver,
                interrupts@.len() == i,
                forall|k: int|
                    0 <= k < i ==> #[trigger] self.workers@[k] == spec_interrupted(
                        old(self).workers@,
                    )[k],
                forall|k: int| i <= k < self.workers@.len() ==> #[trigger] self.workers@[k] == old(
                    self,
                ).workers@[k],
                forall|k: int|
                    0 <= k < i ==> #[trigger] interrupts@[k] == spec_interrupts(
                        old(self).workers@,
                    )[k],
            decreases self.workers@.len() - i,
        {
            let mut worker = self.workers[i];
            let answer = worker.context.interrupt();
            self.workers[i] = worker;
            interrupts.push(answer);
            i += 1;
        }
        proof {
            assert(self.workers@ =~= spec_interrupted(old(self).workers@));
            assert(interrupts@ =~= spec_interrupts(old(self).workers@));
        }
        let drained = self.driver.exit();
        Some(Teardown { interrupts, drained })
    }
}

} // verus!
