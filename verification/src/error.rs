//! Error values shared by every part of the runtime.

use vstd::prelude::*;

verus! {

/// Interrupted system call.
pub const EINTR: u16 = 4;

/// Resource temporarily unavailable; also what a non-blocking call reports
/// when it would block.
pub const EAGAIN: u16 = 11;

/// Out of memory.
pub const ENOMEM: u16 = 12;

/// Device or resource busy.
pub const EBUSY: u16 = 16;

/// Not a directory.
pub const ENOTDIR: u16 = 20;

/// Function not implemented.
pub const ENOSYS: u16 = 38;

/// Timer expired.
pub const ETIME: u16 = 62;

/// An error reported by the operating system, identified by its error number.
#[derive(Clone, Copy, Debug, PartialEq, Eq, Structural)]
pub struct OsError {
    /// The error number, as `errno` would hold it.
    pub code: u16,
}

impl OsError {
    /// Wraps an error number.
    pub fn new(code: u16) -> (err: OsError)
        ensures
            err.code == code,
    {
        OsError { code }
    }

    /// Whether the error says that a non-blocking call found nothing to do.
    pub open spec fn spec_would_block(self) -> bool {
        self.code == EAGAIN
    }

    /// Whether the error says that a non-blocking call found nothing to do.
    pub fn would_block(&self) -> (res: bool)
        ensures
            res == self.spec_would_block(),
    {
        self.code == EAGAIN
    }
}

/// Every failure the runtime core reports.
#[derive(Clone, Copy, Debug, PartialEq, Eq, Structural)]
pub enum Error {
    /// A cancellation was acknowledged, or a timer was cancelled.
    Interrupted,
    /// The driver is exiting and rejects new registrations.
    Shutdown,
    /// The timer to cancel is not pending any more.
    NotFound,
    /// The completion ring overflowed, or the kernel could not take submissions.
    OutOfMemory,
    /// Arithmetic on an absolute timestamp left the range of the clock.
    Overflow,
    /// An error from the operating system, handed on untouched.
    Os(OsError),
}

impl Error {
    /// A short description of the failure.
    pub fn message(&self) -> (text: &'static str)
        ensures
            text == self.spec_message(),
    {
        match self {
            Error::Interrupted => "Interrupted",
            Error::Shutdown => "Driver is shutting down",
            Error::NotFound => "Timer not found",
            Error::OutOfMemory => "Out of memory",
            Error::Overflow => "Overflow",
            Error::Os(_) => "Operating system error",
        }
    }

    /// The text that [`Error::message`] returns.
    pub open spec fn spec_message(self) -> &'static str {
        match self {
            Error::Interrupted => "Interrupted",
            Error::Shutdown => "Driver is shutting down",
            Error::NotFound => "Timer not found",
            Error::OutOfMemory => "Out of memory",
            Error::Overflow => "Overflow",
            Error::Os(_) => "Operating system error",
        }
    }
}

} // verus!
