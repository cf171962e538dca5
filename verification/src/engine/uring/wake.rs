//! The queue through which other threads hand requests to the driver's
//! thread, which completes them there.

use vstd::prelude::*;
use std::collections::VecDeque;

verus! {

/// How many requests the driver takes from the queue at a time.
pub const MAX_RESUME: usize = 4;

/// Requests that wait to be completed on the driver's thread, oldest first.
/// The queue is shared between threads behind a lock; every method here is
/// one critical section.
#[derive(Debug)]
pub struct WakeQueue {
    pub queue: VecDeque<u64>,
}

impl View for WakeQueue {
    type V = Seq<u64>;

    open spec fn view(&self) -> Seq<u64> {
        self.queue@
    }
}

impl WakeQueue {
    /// An empty queue.
    pub fn new() -> (queue: WakeQueue)
        ensures
            queue@ == Seq::<u64>::empty(),
    {
        WakeQueue { queue: VecDeque::new() }
    }

    /// Enqueues the request at the address `request`. Returns whether the
    /// queue was empty, in which case the driver may be asleep and the caller
    /// has to write to the wake descriptor.
    pub fn wake(&mut self, request: u64) -> (notify: bool)
        ensures
            final(self)@ == old(self)@.push(request),
            notify == (old(self)@.len() == 0),
    {
        let notify = self.queue.len() == 0;
        self.queue.push_back(request);
        notify
    }

    /// Takes the oldest requests off the queue, at most [`MAX_RESUME`] of
    /// them, in their order. An empty batch means that the queue is empty:
    /// the caller then clears the wake descriptor while it still holds the
    /// lock, and stops.
    pub fn next_batch(&mut self) -> (batch: Vec<u64>)
        ensures
            batch@.len() == if old(self)@.len() <= MAX_RESUME {
                old(self)@.len()
            } else {
                MAX_RESUME as nat
            },
            batch@ == old(self)@.take(batch@.len() as int),
            final(self)@ == old(self)@.skip(batch@.len() as int),
    {
        let mut batch: Vec<u64> = Vec::new();
        while batch.len() < MAX_RESUME && self.queue.len() > 0
            invariant
                batch@.len() <= MAX_RESUME,
                batch@.len() <= old(self)@.len(),
                batch@ == old(self)@.take(batch@.len() as int),
                self@ == old(self)@.skip(batch@.len() as int),
            decreases MAX_RESUME - batch@.len(),
        {
            let request = self.queue.pop_front();
            match request {
                Some(request) => {
                    batch.push(request);
                    proof {
                        let taken = batch@.len() as int;
                        assert(batch@ =~= old(self)@.take(taken));
                        assert(self@ =~= old(self)@.skip(taken));
                    }
                },
                None => {},
            }
        }
        batch
    }
}

} // verus!
