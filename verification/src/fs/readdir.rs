//! Reading a directory: which entries are shown, and when a read is tried
//! again.

use vstd::prelude::*;
use crate::error::{Error, OsError, EINTR, ENOTDIR};
use crate::fs::{FileKind, Statx};

verus! {

/// Whether `name` is one of the two entries every directory has, `.` and
/// `..`, which a listing leaves out.
pub open spec fn spec_is_dot(name: Seq<u8>) -> bool {
    name == seq![0x2eu8] || name == seq![0x2eu8, 0x2eu8]
}

/// Whether a listing leaves the entry called `name` out; see
/// [`spec_is_dot`].
pub fn is_dot(name: &[u8]) -> (res: bool)
    ensures
        res == spec_is_dot(name@),
{
    let res = (name.len() == 1 && name[0] == 0x2e) || (name.len() == 2 && name[0] == 0x2e
        && name[1] == 0x2e);
    proof {
        if res {
            assert(name@ =~= seq![0x2eu8] || name@ =~= seq![0x2eu8, 0x2eu8]);
        } else {
            if name@ == seq![0x2eu8] {
                assert(name@.len() == 1 && name@[0] == 0x2e);
            }
            if name@ == seq![0x2eu8, 0x2eu8] {
                assert(name@.len() == 2 && name@[0] == 0x2e && name@[1] == 0x2e);
            }
        }
    }
    res
}

/// Whether a read of directory entries on the thread pool is tried again:
/// only after it was interrupted by a signal, and not once the work was
/// cancelled.
pub fn retry_read(result: Result<(), OsError>, cancelled: bool) -> (retry: bool)
    ensures
        retry == (result == Err::<(), OsError>(OsError { code: EINTR }) && !cancelled),
{
    match result {
        Ok(()) => false,
        Err(err) => err.code == EINTR && !cancelled,
    }
}

/// Only a directory can be listed: anything else is `ENOTDIR`.
pub fn check_directory(statx: &Statx) -> (res: Result<(), Error>)
    ensures
        res == if statx.spec_file_type() == Some(FileKind::Directory) {
            Ok::<(), Error>(())
        } else {
            Err::<(), Error>(Error::Os(OsError { code: ENOTDIR }))
        },
{
    match statx.file_type() {
        Some(FileKind::Directory) => Ok(()),
        _ => Err(Error::Os(OsError::new(ENOTDIR))),
    }
}

} // verus!
