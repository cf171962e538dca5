//! A file handle and its position.

use vstd::prelude::*;
use crate::async_runtime::Context;
use crate::error::Error;

verus! {

/// Where to seek to.
#[derive(Clone, Copy, Debug, PartialEq, Eq, Structural)]
pub enum SeekFrom {
    /// So many bytes from the start.
    Start(u64),
    /// So many bytes from the end, backwards if negative.
    End(i64),
    /// So many bytes from the current position, backwards if negative.
    Current(i64),
}

/// A file: its descriptor and the position of the next read or write.
#[derive(Clone, Copy, Debug, PartialEq, Eq, Structural)]
pub struct File {
    pub fd: i32,
    pub offset: u64,
}

impl File {
    /// A file on the descriptor `fd`, at its start.
    pub fn new(fd: i32) -> (file: File)
        ensures
            file == (File { fd, offset: 0 }),
    {
        File { fd, offset: 0 }
    }

    /// The current position in the file.
    pub fn pos(&self) -> (pos: u64)
        ensures
            pos == self.offset,
    {
        self.offset
    }

    /// The offset to hand to the next read or write: the position, which
    /// the kernel takes as a signed number.
    pub fn io_offset(&self) -> (res: Result<i64, Error>)
        ensures
            res == if self.offset <= i64::MAX {
                Ok::<i64, Error>(self.offset as i64)
            } else {
                Err::<i64, Error>(Error::Overflow)
            },
    {
        if self.offset <= i64::MAX as u64 {
            Ok(self.offset as i64)
        } else {
            Err(Error::Overflow)
        }
    }

    /// Takes note of a read or write that moved `count` bytes. A count of
    /// zero from a worker that has been asked to stop is `Interrupted`;
    /// otherwise the position moves on by the count, which is returned.
    pub fn advance(&mut self, context: &Context, count: usize) -> (res: Result<usize, Error>)
        ensures
            final(self).fd == old(self).fd,
            count == 0 && context.interrupted ==> res == Err::<usize, Error>(Error::Interrupted)
                && *final(self) == *old(self),
            !(count == 0 && context.interrupted) && old(self).offset + count > u64::MAX ==> res
                == Err::<usize, Error>(Error::Overflow) && *final(self) == *old(self),
            !(count == 0 && context.interrupted) && old(self).offset + count <= u64::MAX ==> res
                == Ok::<usize, Error>(count) && final(self).offset == old(self).offset + count,
    {
        let count = match context.check_interrupt_if_zero(count) {
            Ok(count) => count,
            Err(err) => {
                return Err(err);
            },
        };
        match self.offset.checked_add(count as u64) {
            Some(offset) => {
                self.offset = offset;
                Ok(count)
            },
            None => Err(Error::Overflow),
        }
    }

    /// The position that `seek` asks for in a file of `len` bytes, if it is
    /// a position at all.
    pub open spec fn spec_seek(self, seek: SeekFrom, len: u64) -> int {
        match seek {
            SeekFrom::Start(pos) => pos as int,
            SeekFrom::Current(rel) => self.offset + rel,
            SeekFrom::End(rel) => len + rel,
        }
    }

    /// Moves the position; `len` is the length of the file, which counts
    /// only for a seek from the end. Returns the new position. A target
    /// before the start or beyond the range of positions is `Overflow` and
    /// leaves the position where it was.
    pub fn seek(&mut self, seek: SeekFrom, len: u64) -> (res: Result<u64, Error>)
        ensures
            final(self).fd == old(self).fd,
            0 <= old(self).spec_seek(seek, len) <= u64::MAX ==> res == Ok::<u64, Error>(
                old(self).spec_seek(seek, len) as u64,
            ) && final(self).offset == old(self).spec_seek(seek, len),
            !(0 <= old(self).spec_seek(seek, len) <= u64::MAX) ==> res == Err::<u64, Error>(
                Error::Overflow,
            ) && *final(self) == *old(self),
    {
        let target = match seek {
            SeekFrom::Start(pos) => Some(pos),
            SeekFrom::Current(rel) => self.offset.checked_add_signed(rel),
            SeekFrom::End(rel) => len.checked_add_signed(rel),
        };
        match target {
            Some(offset) => {
                self.offset = offset;
                Ok(offset)
            },
            None => Err(Error::Overflow),
        }
    }
}

} // verus!
