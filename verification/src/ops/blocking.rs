//! Running blocking work off the runtime's thread.

use vstd::prelude::*;
use crate::async_runtime::Context;
use crate::error::Error;

verus! {

/// Whether a worker may hand work to the thread pool now: not once it has
/// been asked to stop.
pub fn check_start(context: &Context) -> (res: Result<(), Error>)
    ensures
        res == if context.interrupted {
            Err::<(), Error>(Error::Interrupted)
        } else {
            Ok::<(), Error>(())
        },
{
    context.check_interrupt()
}

/// The result of work that was handed to the thread pool. Work that ran has
/// left its output; work that was cancelled before it ran has left none, and
/// the result is `Interrupted`.
pub fn run_blocking<Output>(output: Option<Output>) -> (res: Result<Output, Error>)
    ensures
        res == match output {
            Some(output) => Ok::<Output, Error>(output),
            None => Err::<Output, Error>(Error::Interrupted),
        },
{
    match output {
        Some(output) => Ok(output),
        None => Err(Error::Interrupted),
    }
}

} // verus!
