//! Timers and sleeping.

use vstd::prelude::*;
use crate::async_runtime::{Blocked, Context};
use crate::driver::{Cancel, Driver, Timeout};
use crate::error::Error;

verus! {

/// Starts a timeout for the worker of `context`: `expire` nanoseconds from
/// `now`, or at `expire` on the runtime's clock if `flags` says it is
/// absolute. The timer completes the request at the address `request`.
///
/// A worker that has been asked to stop does not start to wait: the result
/// is `Interrupted` at once. So is `Shutdown` on a driver that is exiting.
/// Otherwise the timer is pending, the worker suspends, and an interrupt
/// finds the timer's cancel token with the context.
pub fn timeout(
    context: &mut Context,
    driver: &mut Driver,
    expire: u64,
    flags: u32,
    request: u64,
    now: u64,
) -> (blocked: Blocked<Result<(), Error>>)
    requires
        old(driver).wf(),
    ensures
        final(driver).wf(),
        final(driver).exiting == old(driver).exiting,
        final(driver).io_engine == old(driver).io_engine,
        old(context).interrupted ==> {
            &&& blocked == Blocked::Ready(Err::<(), Error>(Error::Interrupted))
            &&& *final(context) == *old(context)
            &&& final(driver).pending() == old(driver).pending()
        },
        !old(context).interrupted && old(driver).exiting ==> {
            &&& blocked == Blocked::Ready(Err::<(), Error>(Error::Shutdown))
            &&& *final(context) == *old(context)
            &&& final(driver).pending() == old(driver).pending()
        },
        !old(context).interrupted && !old(driver).exiting ==> {
            &&& blocked == Blocked::<Result<(), Error>>::Suspend
            &&& *final(context) == (Context {
                cancel: Some(
                    Cancel::Timer(
                        Timeout { expire: Driver::spec_expiry(expire, flags, now), request },
                    ),
                ),
                ..*old(context)
            })
            &&& final(driver).pending() == old(driver).pending().insert(
                (Driver::spec_expiry(expire, flags, now), request),
            )
        },
{
    match context.check_interrupt() {
        Ok(()) => {},
        Err(err) => {
            return Blocked::Ready(Err(err));
        },
    }
    let progress = driver.timeout(expire, flags, request, now);
    context.block_on(progress)
}

/// Suspends the worker of `context` for `duration` nanoseconds; see
/// [`timeout`].
pub fn sleep(
    context: &mut Context,
    driver: &mut Driver,
    duration: u64,
    request: u64,
    now: u64,
) -> (blocked: Blocked<Result<(), Error>>)
    requires
        old(driver).wf(),
    ensures
        final(driver).wf(),
        final(driver).exiting == old(driver).exiting,
        final(driver).io_engine == old(driver).io_engine,
        old(context).interrupted ==> {
            &&& blocked == Blocked::Ready(Err::<(), Error>(Error::Interrupted))
            &&& *final(context) == *old(context)
            &&& final(driver).pending() == old(driver).pending()
        },
        !old(context).interrupted && old(driver).exiting ==> {
            &&& blocked == Blocked::Ready(Err::<(), Error>(Error::Shutdown))
            &&& *final(context) == *old(context)
            &&& final(driver).pending() == old(driver).pending()
        },
        !old(context).interrupted && !old(driver).exiting ==> {
            &&& blocked == Blocked::<Result<(), Error>>::Suspend
            &&& *final(context) == (Context {
                cancel: Some(
                    Cancel::Timer(
                        Timeout { expire: Driver::spec_expiry(duration, 0, now), request },
                    ),
                ),
                ..*old(context)
            })
            &&& final(driver).pending() == old(driver).pending().insert(
                (Driver::spec_expiry(duration, 0, now), request),
            )
        },
{
    timeout(context, driver, duration, 0, request, now)
}

/// Gives other workers a turn: a sleep of no time, whose result does not
/// matter. Returns whether the worker suspends.
pub fn yield_now(
    context: &mut Context,
    driver: &mut Driver,
    request: u64,
    now: u64,
) -> (suspend: bool)
    requires
        old(driver).wf(),
    ensures
        final(driver).wf(),
        final(driver).exiting == old(driver).exiting,
        final(driver).io_engine == old(driver).io_engine,
        suspend == (!old(context).interrupted && !old(driver).exiting),
        !suspend ==> *final(context) == *old(context) && final(driver).pending() == old(
            driver,
        ).pending(),
        suspend ==> {
            &&& *final(context) == (Context {
                cancel: Some(Cancel::Timer(Timeout { expire: now, request })),
                ..*old(context)
            })
            &&& final(driver).pending() == old(driver).pending().insert((now, request))
        },
{
    proof {
        assert(0u32 & crate::driver::TIMEOUT_ABS == 0) by (bit_vector);
    }
    match sleep(context, driver, 0, request, now) {
        Blocked::Suspend => true,
        Blocked::Ready(_) => false,
    }
}

} // verus!
