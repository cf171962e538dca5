//! The handshake between the producer and the consumer of an asynchronous
//! result.

use vstd::prelude::*;

verus! {

/// What starting an operation led to.
#[derive(Debug, PartialEq, Eq)]
pub enum Progress<Output, Cancel> {
    /// The operation is registered. Its request will be completed later, or
    /// the token cancels it.
    Pending(Cancel),
    /// The operation finished inline with this result; no request will be
    /// completed for it.
    Done(Output),
}

/// A one-shot slot for the result of an operation. The producer knows it by
/// its address and completes it once.
#[derive(Debug, PartialEq, Eq)]
pub struct Request<T> {
    /// The address that identifies the request to the driver and the kernel.
    pub addr: u64,
    /// Whether an operation was started on the request and has not completed.
    pub outstanding: bool,
    /// The result, from the completion until the consumer takes it.
    pub value: Option<T>,
}

impl<T> Request<T> {
    /// An outstanding request holds no result yet.
    pub open spec fn wf(&self) -> bool {
        self.outstanding ==> self.value.is_none()
    }

    /// A request at the address `addr`, on which nothing was started.
    pub fn new(addr: u64) -> (request: Request<T>)
        ensures
            request == (Request::<T> { addr, outstanding: false, value: None }),
            request.wf(),
    {
        Request { addr, outstanding: false, value: None }
    }

    /// Takes note of how an operation on this request started. A request
    /// serves one operation at a time. An operation that finished inline
    /// hands its result over at once and completes nothing later; a pending
    /// one leaves the request outstanding and hands over its cancel token.
    pub fn start<Cancel>(&mut self, progress: Progress<T, Cancel>) -> (token: Option<Cancel>)
        requires
            old(self).wf(),
            !old(self).outstanding,
        ensures
            final(self).wf(),
            final(self).addr == old(self).addr,
            match progress {
                Progress::Done(value) => {
                    &&& token.is_none()
                    &&& !final(self).outstanding
                    &&& final(self).value == Some(value)
                },
                Progress::Pending(cancel) => {
                    &&& token == Some(cancel)
                    &&& final(self).outstanding
                    &&& final(self).value.is_none()
                },
            },
    {
        match progress {
            Progress::Done(value) => {
                self.value = Some(value);
                None
            },
            Progress::Pending(cancel) => {
                self.outstanding = true;
                self.value = None;
                Some(cancel)
            },
        }
    }

    /// Completes the request with `value`. Only an outstanding request can
    /// be completed, and it is not outstanding afterwards: to complete a
    /// request twice is an error of the caller.
    pub fn complete(&mut self, value: T)
        requires
            old(self).wf(),
            old(self).outstanding,
        ensures
            final(self).wf(),
            *final(self) == (Request::<T> {
                addr: old(self).addr,
                outstanding: false,
                value: Some(value),
            }),
    {
        self.outstanding = false;
        self.value = Some(value);
    }

    /// Takes the result out of the request, if one is there.
    pub fn take(&mut self) -> (value: Option<T>)
        requires
            old(self).wf(),
        ensures
            final(self).wf(),
            value == old(self).value,
            *final(self) == (Request::<T> {
                addr: old(self).addr,
                outstanding: old(self).outstanding,
                value: None,
            }),
    {
        self.value.take()
    }
}

} // verus!
