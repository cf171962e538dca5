//! The I/O backend: how the results of operations are read, and what runs
//! synchronously when the ring cannot run it.

use vstd::prelude::*;
use crate::engine::uring::engine::{IoUring, Pushed, WaitPlan};
use crate::error::{Error, OsError};

pub mod uring;

verus! {

/// How an operation runs.
#[derive(Clone, Copy, Debug, PartialEq, Eq, Structural)]
pub enum OperationKind {
    /// Through the ring: the caller is suspended until the completion.
    Async,
    /// As a blocking call that should be moved off the runtime's thread.
    SyncOffload,
    /// As a call that returns at once.
    NonBlocking,
}

/// The error that the negative return value `val` stands for: its magnitude,
/// as far as an error number can hold it.
pub open spec fn spec_os_error(val: isize) -> OsError {
    OsError {
        code: if val >= -0xffff {
            (-val) as u16
        } else {
            0xffff
        },
    }
}

/// A raw return value read the way the kernel means it: a negative value is
/// an error, anything else the result.
pub open spec fn spec_syscall_result(val: isize) -> Result<isize, OsError> {
    if val < 0 {
        Err(spec_os_error(val))
    } else {
        Ok(val)
    }
}

/// Reads a raw return value; see [`spec_syscall_result`].
pub fn syscall_result(val: isize) -> (res: Result<isize, OsError>)
    ensures
        res == spec_syscall_result(val),
{
    if val < 0 {
        if val >= -0xffff {
            Err(OsError { code: (-val) as u16 })
        } else {
            Err(OsError { code: 0xffff })
        }
    } else {
        Ok(val)
    }
}

/// An engine that runs operations as plain system calls.
pub struct SyncEngine;

impl SyncEngine {
    /// The raw return value that stands for `result`: the value itself, or
    /// the negated error number.
    pub open spec fn spec_sync_result(result: Result<isize, OsError>) -> isize {
        match result {
            Ok(num) => num,
            Err(err) => (-(err.code as int)) as isize,
        }
    }

    /// Packs the result of a system call into a raw return value, as a
    /// completion would carry it.
    pub fn sync_result(result: Result<isize, OsError>) -> (val: isize)
        ensures
            val == SyncEngine::spec_sync_result(result),
    {
        match result {
            Ok(num) => num,
            Err(err) => -(err.code as isize),
        }
    }

    /// A synchronous engine never has work in flight.
    pub fn has_work(&self) -> (res: bool)
        ensures
            !res,
    {
        false
    }
}

/// Packing a result and reading it back gives the result again, for every
/// result a system call can have: a value that is not negative, or an error
/// with a number that is not zero.
pub proof fn lemma_sync_result_round_trip(result: Result<isize, OsError>)
    requires
        match result {
            Ok(num) => num >= 0,
            Err(err) => err.code != 0,
        },
    ensures
        spec_syscall_result(SyncEngine::spec_sync_result(result)) == result,
{
}

/// The I/O backend of the driver.
#[derive(Debug)]
pub struct Engine {
    pub inner: IoUring,
}

impl Engine {
    /// Wraps a ring engine.
    pub fn new(inner: IoUring) -> (engine: Engine)
        ensures
            engine.inner == inner,
    {
        Engine { inner }
    }

    /// Whether anything waits to be submitted or completed.
    pub fn has_work(&self) -> (res: bool)
        ensures
            res == (self.inner.to_complete != 0 || self.inner.to_submit != 0),
    {
        self.inner.has_work()
    }

    /// Notes that a worker is about to wait for a wake from another thread;
    /// see [`IoUring::prepare_wake`].
    pub fn prepare_wake(&mut self) -> (res: Result<Option<Pushed>, Error>)
        requires
            old(self).inner.wf(),
        ensures
            final(self).inner.wf(),
            old(self).inner.expected_wakes == usize::MAX ==> {
                &&& res == Err::<Option<Pushed>, Error>(Error::Overflow)
                &&& *final(self) == *old(self)
            },
            old(self).inner.expected_wakes < usize::MAX ==> {
                &&& res.is_ok()
                &&& final(self).inner.expected_wakes == old(self).inner.expected_wakes + 1
                &&& match res.unwrap() {
                    None => old(self).inner.expected_wakes != 0 && final(self).inner == (IoUring {
                        expected_wakes: final(self).inner.expected_wakes,
                        ..old(self).inner
                    }),
                    Some(pushed) => old(self).inner.expected_wakes == 0 && final(self).inner.queued(
                        &(IoUring { expected_wakes: 1, ..old(self).inner }),
                        old(self).inner.spec_wake_poll(),
                        pushed,
                    ),
                }
            },
    {
        self.inner.prepare_wake()
    }

    /// Decides how to wait up to `timeout` nanoseconds for completions; see
    /// [`IoUring::submit_and_wait`].
    pub fn work(&self, timeout: u64, head: u32, tail: u32, sq_flags: u32) -> (plan: WaitPlan)
        ensures
            plan == self.inner.spec_submit_and_wait(timeout, head, tail, sq_flags),
    {
        self.inner.submit_and_wait(timeout, head, tail, sq_flags)
    }

    /// The result of an operation that yields a descriptor.
    pub open spec fn spec_result_fd(val: isize) -> Result<i32, OsError> {
        match spec_syscall_result(val) {
            Ok(fd) => Ok(fd as i32),
            Err(err) => Err(err),
        }
    }

    /// The result of an operation that yields nothing.
    pub open spec fn spec_result_unit(val: isize) -> Result<(), OsError> {
        match spec_syscall_result(val) {
            Ok(_) => Ok(()),
            Err(err) => Err(err),
        }
    }

    /// The result of an operation that yields a number of bytes.
    pub open spec fn spec_result_count(val: isize) -> Result<usize, OsError> {
        match spec_syscall_result(val) {
            Ok(count) => Ok(count as usize),
            Err(err) => Err(err),
        }
    }

    /// The result of an operation that yields an event mask.
    pub open spec fn spec_result_mask(val: isize) -> Result<u32, OsError> {
        match spec_syscall_result(val) {
            Ok(mask) => Ok(mask as u32),
            Err(err) => Err(err),
        }
    }

    fn result_fd(val: isize) -> (res: Result<i32, OsError>)
        ensures
            res == Engine::spec_result_fd(val),
    {
        match syscall_result(val) {
            Ok(fd) => Ok(#[verifier::truncate] (fd as i32)),
            Err(err) => Err(err),
        }
    }

    fn result_unit(val: isize) -> (res: Result<(), OsError>)
        ensures
            res == Engine::spec_result_unit(val),
    {
        match syscall_result(val) {
            Ok(_) => Ok(()),
            Err(err) => Err(err),
        }
    }

    fn result_count(val: isize) -> (res: Result<usize, OsError>)
        ensures
            res == Engine::spec_result_count(val),
    {
        match syscall_result(val) {
            Ok(count) => Ok(count as usize),
            Err(err) => Err(err),
        }
    }

    fn result_mask(val: isize) -> (res: Result<u32, OsError>)
        ensures
            res == Engine::spec_result_mask(val),
    {
        match syscall_result(val) {
            Ok(mask) => Ok(#[verifier::truncate] (mask as u32)),
            Err(err) => Err(err),
        }
    }

    /// Reads the raw result of `open`.
    pub fn result_for_open(val: isize) -> (res: Result<i32, OsError>)
        ensures
            res == Engine::spec_result_fd(val),
    {
        Engine::result_fd(val)
    }

    /// Reads the raw result of `close`.
    pub fn result_for_close(val: isize) -> (res: Result<(), OsError>)
        ensures
            res == Engine::spec_result_unit(val),
    {
        Engine::result_unit(val)
    }

    /// Reads the raw result of `read`.
    pub fn result_for_read(val: isize) -> (res: Result<usize, OsError>)
        ensures
            res == Engine::spec_result_count(val),
    {
        Engine::result_count(val)
    }

    /// Reads the raw result of `write`.
    pub fn result_for_write(val: isize) -> (res: Result<usize, OsError>)
        ensures
            res == Engine::spec_result_count(val),
    {
        Engine::result_count(val)
    }

    /// Reads the raw result of `socket`.
    pub fn result_for_socket(val: isize) -> (res: Result<i32, OsError>)
        ensures
            res == Engine::spec_result_fd(val),
    {
        Engine::result_fd(val)
    }

    /// Reads the raw result of `accept`.
    pub fn result_for_accept(val: isize) -> (res: Result<i32, OsError>)
        ensures
            res == Engine::spec_result_fd(val),
    {
        Engine::result_fd(val)
    }

    /// Reads the raw result of `connect`.
    pub fn result_for_connect(val: isize) -> (res: Result<(), OsError>)
        ensures
            res == Engine::spec_result_unit(val),
    {
        Engine::result_unit(val)
    }

    /// Reads the raw result of `recv`.
    pub fn result_for_recv(val: isize) -> (res: Result<usize, OsError>)
        ensures
            res == Engine::spec_result_count(val),
    {
        Engine::result_count(val)
    }

    /// Reads the raw result of `recvmsg`.
    pub fn result_for_recvmsg(val: isize) -> (res: Result<usize, OsError>)
        ensures
            res == Engine::spec_result_count(val),
    {
        Engine::result_count(val)
    }

    /// Reads the raw result of `send`.
    pub fn result_for_send(val: isize) -> (res: Result<usize, OsError>)
        ensures
            res == Engine::spec_result_count(val),
    {
        Engine::result_count(val)
    }

    /// Reads the raw result of `sendmsg`.
    pub fn result_for_sendmsg(val: isize) -> (res: Result<usize, OsError>)
        ensures
            res == Engine::spec_result_count(val),
    {
        Engine::result_count(val)
    }

    /// Reads the raw result of `shutdown`.
    pub fn result_for_shutdown(val: isize) -> (res: Result<(), OsError>)
        ensures
            res == Engine::spec_result_unit(val),
    {
        Engine::result_unit(val)
    }

    /// Reads the raw result of `bind`.
    pub fn result_for_bind(val: isize) -> (res: Result<(), OsError>)
        ensures
            res == Engine::spec_result_unit(val),
    {
        Engine::result_unit(val)
    }

    /// Reads the raw result of `listen`.
    pub fn result_for_listen(val: isize) -> (res: Result<(), OsError>)
        ensures
            res == Engine::spec_result_unit(val),
    {
        Engine::result_unit(val)
    }

    /// Reads the raw result of `fsync`.
    pub fn result_for_fsync(val: isize) -> (res: Result<(), OsError>)
        ensures
            res == Engine::spec_result_unit(val),
    {
        Engine::result_unit(val)
    }

    /// Reads the raw result of `statx`.
    pub fn result_for_statx(val: isize) -> (res: Result<(), OsError>)
        ensures
            res == Engine::spec_result_unit(val),
    {
        Engine::result_unit(val)
    }

    /// Reads the raw result of `poll`.
    pub fn result_for_poll(val: isize) -> (res: Result<u32, OsError>)
        ensures
            res == Engine::spec_result_mask(val),
    {
        Engine::result_mask(val)
    }
}

} // verus!
