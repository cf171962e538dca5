//! What a socket remembers about its readiness, and how that decides
//! between a direct system call and a trip through the ring.

use vstd::prelude::*;
use crate::async_runtime::Context;
use crate::engine::uring::engine::POLL_IN;
use crate::error::{Error, OsError};

verus! {

/// Poll event: writing will not block.
pub const POLL_OUT: u32 = 0x4;

/// Message flag: do not block.
pub const MSG_DONTWAIT: u32 = 0x40;

/// Message flag: do not raise a signal when the peer is gone.
pub const MSG_NOSIGNAL: u32 = 0x4000;

/// Which part of a connection to shut down.
#[derive(Clone, Copy, Debug, PartialEq, Eq, Structural)]
pub enum Shutdown {
    Read,
    Write,
    Both,
}

/// How a socket operation goes on.
#[derive(Clone, Copy, Debug, PartialEq, Eq, Structural)]
pub enum Budgeted {
    /// Make the system call directly, without blocking.
    Sync,
    /// Go through the ring and suspend.
    Suspend,
}

/// A socket: its descriptor and the events it is believed ready for.
#[derive(Clone, Copy, Debug, PartialEq, Eq, Structural)]
pub struct Socket {
    pub fd: i32,
    /// The poll events that the last operations left the socket ready for.
    pub ready: u32,
}

impl Socket {
    /// A socket on `fd`, not known to be ready for anything.
    pub fn new(fd: i32) -> (socket: Socket)
        ensures
            socket == (Socket { fd, ready: 0 }),
    {
        Socket { fd, ready: 0 }
    }

    /// The descriptor.
    pub fn fd(&self) -> (fd: i32)
        ensures
            fd == self.fd,
    {
        self.fd
    }

    /// Decides how an operation that needs the events `flags` begins.
    /// `acquire` is called only if the socket is believed ready for all of
    /// them, and says whether the task still has budget for a direct call.
    ///
    /// With readiness and budget the call is made directly, unless the worker
    /// has been asked to stop, which is an error. Otherwise the operation
    /// goes through the ring, which yields to other tasks.
    pub fn with_budget(&self, context: &Context, flags: u32, budget: bool) -> (res: Result<
        Budgeted,
        Error,
    >)
        ensures
            res == if self.ready & flags == flags && budget {
                if context.interrupted {
                    Err::<Budgeted, Error>(Error::Interrupted)
                } else {
                    Ok::<Budgeted, Error>(Budgeted::Sync)
                }
            } else {
                Ok::<Budgeted, Error>(Budgeted::Suspend)
            },
    {
        if self.ready & flags == flags && budget {
            match context.check_interrupt() {
                Ok(()) => Ok(Budgeted::Sync),
                Err(err) => Err(err),
            }
        } else {
            Ok(Budgeted::Suspend)
        }
    }

    /// Reads the result of the direct call. A call that would have blocked
    /// shows that the socket is not ready for `flags` after all: that is
    /// remembered and the operation goes through the ring (`None`). Any
    /// other result is the operation's result.
    pub fn sync_done<T>(&mut self, flags: u32, result: Result<T, OsError>) -> (res: Option<
        Result<T, Error>,
    >)
        ensures
            final(self).fd == old(self).fd,
            match result {
                Ok(value) => res == Some(Ok::<T, Error>(value)) && *final(self) == *old(self),
                Err(err) => if err.spec_would_block() {
                    res.is_none() && final(self).ready == old(self).ready & !flags
                } else {
                    res == Some(Err::<T, Error>(Error::Os(err))) && *final(self) == *old(self)
                },
            },
    {
        match result {
            Ok(value) => Some(Ok(value)),
            Err(err) => {
                if err.would_block() {
                    self.ready = self.ready & !flags;
                    None
                } else {
                    Some(Err(Error::Os(err)))
                }
            },
        }
    }

    /// Takes note of the result of the trip through the ring: after a
    /// success the socket is believed ready for `flags` again.
    pub fn suspend_done(&mut self, flags: u32, ok: bool)
        ensures
            final(self).fd == old(self).fd,
            final(self).ready == if ok {
                old(self).ready | flags
            } else {
                old(self).ready
            },
    {
        if ok {
            self.ready = self.ready | flags;
        }
    }

    /// The flags of a direct call: the caller's, and never block, never
    /// signal.
    pub fn sync_flags(flags: u32) -> (res: u32)
        ensures
            res == flags | MSG_DONTWAIT | MSG_NOSIGNAL,
    {
        flags | MSG_DONTWAIT | MSG_NOSIGNAL
    }

    /// Before polling for `flags`: the socket is not believed ready for them
    /// any more.
    pub fn poll(&mut self, flags: u32)
        ensures
            final(self).fd == old(self).fd,
            final(self).ready == old(self).ready & !flags,
    {
        self.ready = self.ready & !flags;
    }

    /// After a poll: the socket is ready for the events that were reported.
    pub fn polled(&mut self, events: u32)
        ensures
            final(self).fd == old(self).fd,
            final(self).ready == old(self).ready | events,
    {
        self.ready = self.ready | events;
    }

    /// The events that a shut down part of the connection is ready for from
    /// now on: its operations return at once.
    pub open spec fn spec_shutdown_events(how: Shutdown) -> u32 {
        match how {
            Shutdown::Read => POLL_IN,
            Shutdown::Write => POLL_OUT,
            Shutdown::Both => POLL_IN | POLL_OUT,
        }
    }

    /// After a successful shutdown of `how`: the socket is ready for the
    /// events of the parts that were shut down.
    pub fn shutdown(&mut self, how: Shutdown)
        ensures
            final(self).fd == old(self).fd,
            final(self).ready == old(self).ready | Socket::spec_shutdown_events(how),
    {
        let flags: u32 = match how {
            Shutdown::Read => POLL_IN,
            Shutdown::Write => POLL_OUT,
            Shutdown::Both => POLL_IN | POLL_OUT,
        };
        self.ready = self.ready | flags;
    }
}

/// Takes note of the result for one address of a name, while the addresses
/// are tried one after the other. A success ends the search with its value.
/// A failure is remembered in `error`, in place of any earlier one, and the
/// search goes on.
pub fn foreach_addr<T>(error: &mut Option<Error>, result: Result<T, Error>) -> (found: Option<T>)
    ensures
        match result {
            Ok(value) => found == Some(value) && *final(error) == *old(error),
            Err(err) => found.is_none() && *final(error) == Some(err),
        },
{
    match result {
        Ok(value) => Some(value),
        Err(err) => {
            *error = Some(err);
            None
        },
    }
}

/// The error of a search that ran out of addresses: the last failure, or
/// `none` if the name had no address at all.
pub fn no_addresses(error: Option<Error>, none: Error) -> (err: Error)
    ensures
        err == match error {
            Some(last) => last,
            None => none,
        },
{
    match error {
        Some(last) => last,
        None => none,
    }
}

} // verus!
