//! Conveniences built from the combinators.

use vstd::prelude::*;
use crate::error::Error;
use crate::ops::branch::Select;

verus! {

/// The result of a task that raced a sleep: the task's output if it finished
/// within the time, `None` if the sleep finished first.
pub fn timeout<Output>(outcome: Select<Output, Result<(), Error>>) -> (res: Option<Output>)
    ensures
        res == match outcome {
            Select::First(output, _) => Some(output),
            Select::Second(_, _) => None,
        },
{
    match outcome {
        Select::First(output, _) => Some(output),
        Select::Second(_, _) => None,
    }
}

} // verus!
