//! What every I/O operation does around its start, whichever operation it is.

use vstd::prelude::*;
use crate::async_runtime::Context;
use crate::driver::{Cancel, Driver};
use crate::engine::uring::dispatch::{Started, SyncCall};
use crate::engine::uring::engine::Pushed;
use crate::error::{Error, OsError};

verus! {

/// `statx` flag: the path is empty and the descriptor itself is meant.
pub const AT_EMPTY_PATH: u32 = 0x1000;

/// What a worker does after its operation was handed to the engine.
#[derive(Clone, Copy, Debug, PartialEq, Eq, Structural)]
pub enum IoStart {
    /// The operation is in the ring: suspend until its request is completed.
    Suspend,
    /// The ring does not run the operation: make this system call and go on
    /// with its return value.
    Call(SyncCall),
    /// The ring was full and took nothing: flush it and start again.
    Flush,
}

/// Whether a worker may start an operation now. A worker that has been
/// asked to stop may not, and nobody may while the driver is exiting; the
/// interrupt is reported first. An operation that must always run, such as
/// closing a descriptor, is started with `force` and passes regardless.
pub fn check_start(context: &Context, driver: &Driver, force: bool) -> (res: Result<(), Error>)
    ensures
        res == if force {
            Ok::<(), Error>(())
        } else if context.interrupted {
            Err::<(), Error>(Error::Interrupted)
        } else if driver.exiting {
            Err::<(), Error>(Error::Shutdown)
        } else {
            Ok::<(), Error>(())
        },
{
    if !force {
        match context.check_interrupt() {
            Ok(()) => {},
            Err(err) => {
                return Err(err);
            },
        }
        match driver.check_exiting() {
            Ok(()) => {},
            Err(err) => {
                return Err(err);
            },
        }
    }
    Ok(())
}

/// Takes note of how the operation of the request at `request` was started.
/// If an entry went to the ring the worker suspends, and an interrupt finds
/// the token that cancels the operation with the context. Otherwise the
/// context stays as it is.
pub fn started(context: &mut Context, how: Started, request: u64) -> (start: IoStart)
    ensures
        match how {
            Started::Sync(call) => start == IoStart::Call(call) && *final(context) == *old(
                context,
            ),
            Started::Async(Pushed::Full) => start == IoStart::Flush && *final(context) == *old(
                context,
            ),
            Started::Async(_) => start == IoStart::Suspend && *final(context) == (Context {
                cancel: Some(Cancel::Operation(request)),
                ..*old(context)
            }),
        },
{
    match how {
        Started::Sync(call) => IoStart::Call(call),
        Started::Async(Pushed::Full) => IoStart::Flush,
        Started::Async(_) => {
            context.cancel = Some(Cancel::Operation(request));
            IoStart::Suspend
        },
    }
}

/// Hands the result of an operation to the caller: an error of the
/// operating system is passed on untouched.
pub fn finish<T>(result: Result<T, OsError>) -> (res: Result<T, Error>)
    ensures
        res == match result {
            Ok(value) => Ok::<T, Error>(value),
            Err(err) => Err::<T, Error>(Error::Os(err)),
        },
{
    match result {
        Ok(value) => Ok(value),
        Err(err) => Err(Error::Os(err)),
    }
}

/// The flags for a `statx` of a descriptor rather than a path: the caller's
/// flags and the one that lets the path be empty.
pub fn statx_fd_flags(flags: u32) -> (res: u32)
    ensures
        res == flags | AT_EMPTY_PATH,
{
    flags | AT_EMPTY_PATH
}

} // verus!
