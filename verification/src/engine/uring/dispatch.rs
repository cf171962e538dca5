//! How the engine starts each operation: through the ring where it can, as
//! a plain system call where it cannot.

use vstd::prelude::*;
use crate::engine::uring::engine::{IoUring, Pushed};
use crate::engine::uring::op::{Op, OpCode, SubmissionEntry};
use crate::engine::OperationKind;

verus! {

/// The descriptor that stands for the working directory in `openat`.
pub const AT_FDCWD: i32 = -100;

/// A system call for the caller to make in place of a ring operation. Its
/// return value is the operation's result.
#[derive(Clone, Copy, Debug, PartialEq, Eq, Structural)]
pub enum SyncCall {
    Close { fd: i32 },
    Socket { domain: u32, socket_type: u32, protocol: u32 },
    Shutdown { socket: i32, how: u32 },
    Bind { socket: i32, addr: u64, addrlen: i32 },
    Listen { socket: i32, backlog: i32 },
}

/// How an operation was started.
#[derive(Clone, Copy, Debug, PartialEq, Eq, Structural)]
pub enum Started {
    /// An entry for it was handed to the ring; the request completes later.
    Async(Pushed),
    /// The ring does not run it: the caller makes this system call and the
    /// operation is done.
    Sync(SyncCall),
}

/// A byte count as one ring operation can hold it.
pub open spec fn spec_clamp_len(len: usize) -> u32 {
    if len > u32::MAX {
        u32::MAX
    } else {
        len as u32
    }
}

/// A byte count as one ring operation can hold it.
pub fn clamp_len(len: usize) -> (clamped: u32)
    ensures
        clamped == spec_clamp_len(len),
{
    if len > u32::MAX as usize {
        u32::MAX
    } else {
        len as u32
    }
}

impl IoUring {
    /// How `close` runs on this kernel.
    pub fn close_kind(&self) -> (kind: OperationKind)
        ensures
            kind == if self.features.spec_opcode_supported(OpCode::Close) {
                OperationKind::Async
            } else {
                OperationKind::SyncOffload
            },
    {
        if !self.features.opcode_supported(OpCode::Close) {
            OperationKind::SyncOffload
        } else {
            OperationKind::Async
        }
    }

    /// Opens the file whose path is at the address `path`, relative to the
    /// working directory.
    pub fn open(&mut self, path: u64, flags: u32, mode: u32, request: u64) -> (started: Started)
        requires
            old(self).wf(),
        ensures
            final(self).wf(),
            match started {
                Started::Async(pushed) => final(self).queued(
                    old(self),
                    SubmissionEntry {
                        fd: AT_FDCWD,
                        addr: path,
                        len: mode,
                        rw_flags: flags,
                        user_data: request,
                        ..SubmissionEntry::spec_new(OpCode::OpenAt)
                    },
                    pushed,
                ),
                Started::Sync(_) => false,
            },
    {
        let op = Op::openat(AT_FDCWD, path, flags, mode, 0);
        Started::Async(self.start_async(op, request))
    }

    /// Closes `fd`; with a plain system call where the ring cannot.
    pub fn close(&mut self, fd: i32, request: u64) -> (started: Started)
        requires
            old(self).wf(),
        ensures
            final(self).wf(),
            match started {
                Started::Async(pushed) => {
                    &&& old(self).features.spec_opcode_supported(OpCode::Close)
                    &&& final(self).queued(
                        old(self),
                        SubmissionEntry {
                            fd,
                            user_data: request,
                            ..SubmissionEntry::spec_new(OpCode::Close)
                        },
                        pushed,
                    )
                },
                Started::Sync(call) => {
                    &&& !old(self).features.spec_opcode_supported(OpCode::Close)
                    &&& call == SyncCall::Close { fd }
                    &&& *final(self) == *old(self)
                },
            },
    {
        if !self.features.opcode_supported(OpCode::Close) {
            return Started::Sync(SyncCall::Close { fd });
        }
        let op = Op::close(fd);
        Started::Async(self.start_async(op, request))
    }

    /// Reads up to `len` bytes from `fd` at `offset` to the address `buf`. One
    /// operation moves at most `u32::MAX` bytes.
    pub fn read(
        &mut self,
        fd: i32,
        buf: u64,
        len: usize,
        offset: i64,
        request: u64,
    ) -> (started: Started)
        requires
            old(self).wf(),
        ensures
            final(self).wf(),
            match started {
                Started::Async(pushed) => final(self).queued(
                    old(self),
                    SubmissionEntry {
                        fd,
                        addr: buf,
                        len: spec_clamp_len(len),
                        off: offset as u64,
                        user_data: request,
                        ..SubmissionEntry::spec_new(OpCode::Read)
                    },
                    pushed,
                ),
                Started::Sync(_) => false,
            },
    {
        let op = Op::read(fd, buf, clamp_len(len), offset, 0);
        Started::Async(self.start_async(op, request))
    }

    /// Writes up to `len` bytes from the address `buf` to `fd` at `offset`. One
    /// operation moves at most `u32::MAX` bytes.
    pub fn write(
        &mut self,
        fd: i32,
        buf: u64,
        len: usize,
        offset: i64,
        request: u64,
    ) -> (started: Started)
        requires
            old(self).wf(),
        ensures
            final(self).wf(),
            match started {
                Started::Async(pushed) => final(self).queued(
                    old(self),
                    SubmissionEntry {
                        fd,
                        addr: buf,
                        len: spec_clamp_len(len),
                        off: offset as u64,
                        user_data: request,
                        ..SubmissionEntry::spec_new(OpCode::Write)
                    },
                    pushed,
                ),
                Started::Sync(_) => false,
            },
    {
        let op = Op::write(fd, buf, clamp_len(len), offset, 0);
        Started::Async(self.start_async(op, request))
    }

    /// Creates a socket; with a plain system call where the ring cannot.
    pub fn socket(
        &mut self,
        domain: u32,
        socket_type: u32,
        protocol: u32,
        request: u64,
    ) -> (started: Started)
        requires
            old(self).wf(),
        ensures
            final(self).wf(),
            match started {
                Started::Async(pushed) => {
                    &&& old(self).features.spec_opcode_supported(OpCode::Socket)
                    &&& final(self).queued(
                        old(self),
                        SubmissionEntry {
                            fd: domain as i32,
                            len: protocol,
                            off: socket_type as u64,
                            user_data: request,
                            ..SubmissionEntry::spec_new(OpCode::Socket)
                        },
                        pushed,
                    )
                },
                Started::Sync(call) => {
                    &&& !old(self).features.spec_opcode_supported(OpCode::Socket)
                    &&& call == SyncCall::Socket { domain, socket_type, protocol }
                    &&& *final(self) == *old(self)
                },
            },
    {
        if !self.features.opcode_supported(OpCode::Socket) {
            return Started::Sync(SyncCall::Socket { domain, socket_type, protocol });
        }
        let op = Op::socket(domain, socket_type, protocol, 0, 0);
        Started::Async(self.start_async(op, request))
    }

    /// Accepts a connection on `socket`; the peer's address goes to the address
    /// `addr`, its length to the address `addrlen`.
    pub fn accept(
        &mut self,
        socket: i32,
        addr: u64,
        addrlen: u64,
        request: u64,
    ) -> (started: Started)
        requires
            old(self).wf(),
        ensures
            final(self).wf(),
            match started {
                Started::Async(pushed) => final(self).queued(
                    old(self),
                    SubmissionEntry {
                        fd: socket,
                        addr,
                        off: addrlen,
                        user_data: request,
                        ..SubmissionEntry::spec_new(OpCode::Accept)
                    },
                    pushed,
                ),
                Started::Sync(_) => false,
            },
    {
        let op = Op::accept(socket, addr, addrlen, 0, 0);
        Started::Async(self.start_async(op, request))
    }

    /// Connects `socket` to the address at `addr`.
    pub fn connect(
        &mut self,
        socket: i32,
        addr: u64,
        addrlen: i32,
        request: u64,
    ) -> (started: Started)
        requires
            old(self).wf(),
        ensures
            final(self).wf(),
            match started {
                Started::Async(pushed) => final(self).queued(
                    old(self),
                    SubmissionEntry {
                        fd: socket,
                        addr,
                        off: addrlen as u64,
                        user_data: request,
                        ..SubmissionEntry::spec_new(OpCode::Connect)
                    },
                    pushed,
                ),
                Started::Sync(_) => false,
            },
    {
        let op = Op::connect(socket, addr, addrlen);
        Started::Async(self.start_async(op, request))
    }

    /// Receives up to `len` bytes from `socket` to the address `buf`.
    pub fn recv(
        &mut self,
        socket: i32,
        buf: u64,
        len: usize,
        flags: u32,
        request: u64,
    ) -> (started: Started)
        requires
            old(self).wf(),
        ensures
            final(self).wf(),
            match started {
                Started::Async(pushed) => final(self).queued(
                    old(self),
                    SubmissionEntry {
                        fd: socket,
                        addr: buf,
                        len: spec_clamp_len(len),
                        rw_flags: flags,
                        user_data: request,
                        ..SubmissionEntry::spec_new(OpCode::Recv)
                    },
                    pushed,
                ),
                Started::Sync(_) => false,
            },
    {
        let op = Op::recv(socket, buf, clamp_len(len), flags);
        Started::Async(self.start_async(op, request))
    }

    /// Receives a message from `socket` as the header at the address `header`
    /// says.
    pub fn recvmsg(
        &mut self,
        socket: i32,
        header: u64,
        flags: u32,
        request: u64,
    ) -> (started: Started)
        requires
            old(self).wf(),
        ensures
            final(self).wf(),
            match started {
                Started::Async(pushed) => final(self).queued(
                    old(self),
                    SubmissionEntry {
                        fd: socket,
                        addr: header,
                        len: 1,
                        rw_flags: flags,
                        user_data: request,
                        ..SubmissionEntry::spec_new(OpCode::RecvMsg)
                    },
                    pushed,
                ),
                Started::Sync(_) => false,
            },
    {
        let op = Op::recvmsg(socket, header, flags);
        Started::Async(self.start_async(op, request))
    }

    /// Sends up to `len` bytes from the address `buf` on `socket`.
    pub fn send(
        &mut self,
        socket: i32,
        buf: u64,
        len: usize,
        flags: u32,
        request: u64,
    ) -> (started: Started)
        requires
            old(self).wf(),
        ensures
            final(self).wf(),
            match started {
                Started::Async(pushed) => final(self).queued(
                    old(self),
                    SubmissionEntry {
                        fd: socket,
                        addr: buf,
                        len: spec_clamp_len(len),
                        rw_flags: flags,
                        user_data: request,
                        ..SubmissionEntry::spec_new(OpCode::Send)
                    },
                    pushed,
                ),
                Started::Sync(_) => false,
            },
    {
        let op = Op::send(socket, buf, clamp_len(len), flags);
        Started::Async(self.start_async(op, request))
    }

    /// Sends a message on `socket` as the header at the address `header` says.
    pub fn sendmsg(
        &mut self,
        socket: i32,
        header: u64,
        flags: u32,
        request: u64,
    ) -> (started: Started)
        requires
            old(self).wf(),
        ensures
            final(self).wf(),
            match started {
                Started::Async(pushed) => final(self).queued(
                    old(self),
                    SubmissionEntry {
                        fd: socket,
                        addr: header,
                        len: 1,
                        rw_flags: flags,
                        user_data: request,
                        ..SubmissionEntry::spec_new(OpCode::SendMsg)
                    },
                    pushed,
                ),
                Started::Sync(_) => false,
            },
    {
        let op = Op::sendmsg(socket, header, flags);
        Started::Async(self.start_async(op, request))
    }

    /// Shuts down a part of the connection of `socket`; with a plain system
    /// call where the ring cannot.
    pub fn shutdown(&mut self, socket: i32, how: u32, request: u64) -> (started: Started)
        requires
            old(self).wf(),
        ensures
            final(self).wf(),
            match started {
                Started::Async(pushed) => {
                    &&& old(self).features.spec_opcode_supported(OpCode::Shutdown)
                    &&& final(self).queued(
                        old(self),
                        SubmissionEntry {
                            fd: socket,
                            len: how,
                            user_data: request,
                            ..SubmissionEntry::spec_new(OpCode::Shutdown)
                        },
                        pushed,
                    )
                },
                Started::Sync(call) => {
                    &&& !old(self).features.spec_opcode_supported(OpCode::Shutdown)
                    &&& call == SyncCall::Shutdown { socket, how }
                    &&& *final(self) == *old(self)
                },
            },
    {
        if !self.features.opcode_supported(OpCode::Shutdown) {
            return Started::Sync(SyncCall::Shutdown { socket, how });
        }
        let op = Op::shutdown(socket, how);
        Started::Async(self.start_async(op, request))
    }

    /// Binds `socket` to the address at `addr`: always a plain system call.
    pub fn bind(&mut self, socket: i32, addr: u64, addrlen: i32, request: u64) -> (started: Started)
        requires
            old(self).wf(),
        ensures
            final(self).wf(),
            started == Started::Sync(SyncCall::Bind { socket, addr, addrlen }),
            *final(self) == *old(self),
    {
        Started::Sync(SyncCall::Bind { socket, addr, addrlen })
    }

    /// Marks `socket` as listening: always a plain system call.
    pub fn listen(&mut self, socket: i32, backlog: i32, request: u64) -> (started: Started)
        requires
            old(self).wf(),
        ensures
            final(self).wf(),
            started == Started::Sync(SyncCall::Listen { socket, backlog }),
            *final(self) == *old(self),
    {
        Started::Sync(SyncCall::Listen { socket, backlog })
    }

    /// Flushes `file` to the disk.
    pub fn fsync(&mut self, file: i32, request: u64) -> (started: Started)
        requires
            old(self).wf(),
        ensures
            final(self).wf(),
            match started {
                Started::Async(pushed) => final(self).queued(
                    old(self),
                    SubmissionEntry {
                        fd: file,
                        user_data: request,
                        ..SubmissionEntry::spec_new(OpCode::FileSync)
                    },
                    pushed,
                ),
                Started::Sync(_) => false,
            },
    {
        let op = Op::fsync(file, 0);
        Started::Async(self.start_async(op, request))
    }

    /// Reads the metadata of the file at `path` relative to `dirfd` into the
    /// block at the address `statx`.
    pub fn statx(
        &mut self,
        dirfd: i32,
        path: u64,
        flags: u32,
        mask: u32,
        statx: u64,
        request: u64,
    ) -> (started: Started)
        requires
            old(self).wf(),
        ensures
            final(self).wf(),
            match started {
                Started::Async(pushed) => final(self).queued(
                    old(self),
                    SubmissionEntry {
                        fd: dirfd,
                        addr: path,
                        len: mask,
                        off: statx,
                        rw_flags: flags,
                        user_data: request,
                        ..SubmissionEntry::spec_new(OpCode::Statx)
                    },
                    pushed,
                ),
                Started::Sync(_) => false,
            },
    {
        let op = Op::statx(dirfd, path, flags, mask, statx);
        Started::Async(self.start_async(op, request))
    }

    /// Waits for one of the events of `mask` on `fd`.
    pub fn poll(&mut self, fd: i32, mask: u32, request: u64) -> (started: Started)
        requires
            old(self).wf(),
        ensures
            final(self).wf(),
            match started {
                Started::Async(pushed) => final(self).queued(
                    old(self),
                    SubmissionEntry {
                        fd,
                        rw_flags: mask,
                        user_data: request,
                        ..SubmissionEntry::spec_new(OpCode::PollAdd)
                    },
                    pushed,
                ),
                Started::Sync(_) => false,
            },
    {
        let op = Op::poll(fd, mask);
        Started::Async(self.start_async(op, request))
    }
}

} // verus!
