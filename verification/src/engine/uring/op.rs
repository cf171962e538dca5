//! Submission entries and the adapters that fill them in for each operation.

use vstd::prelude::*;

verus! {

/// The operations a submission entry can name, in the order of their codes.
#[derive(Clone, Copy, Debug, PartialEq, Eq, Structural)]
pub enum OpCode {
    /// Does nothing.
    NoOp,
    /// `readv`.
    ReadVector,
    /// `writev`.
    WriteVector,
    /// `fsync`.
    FileSync,
    /// Read into a registered buffer.
    ReadFixed,
    /// Write from a registered buffer.
    WriteFixed,
    /// Wait for events on a descriptor.
    PollAdd,
    /// Remove or update a poll.
    PollRemove,
    /// `sync_file_range`.
    SyncFileRange,
    /// `sendmsg`.
    SendMsg,
    /// `recvmsg`.
    RecvMsg,
    /// A timeout that completes after an interval or a number of completions.
    Timeout,
    /// Remove a timeout.
    TimeoutRemove,
    /// `accept4`.
    Accept,
    /// Cancel an operation in flight.
    AsyncCancel,
    /// A timeout linked to another operation.
    LinkTimeout,
    /// `connect`.
    Connect,
    /// `fallocate`.
    FileAllocate,
    /// `openat`.
    OpenAt,
    /// `close`.
    Close,
    /// Update registered files.
    FilesUpdate,
    /// `statx`.
    Statx,
    /// `read`.
    Read,
    /// `write`.
    Write,
    /// `posix_fadvise`.
    FileAdvise,
    /// `madvise`.
    MemoryAdvise,
    /// `send`.
    Send,
    /// `recv`.
    Recv,
    /// `openat2`.
    OpenAt2,
    /// `epoll_ctl`.
    EPollCtl,
    /// `splice`.
    Splice,
    /// Provide buffers to a group.
    ProvideBuffers,
    /// Remove buffers from a group.
    RemoveBuffers,
    /// `tee`.
    Tee,
    /// `shutdown`.
    Shutdown,
    /// `renameat2`.
    RenameAt,
    /// `unlinkat`.
    UnlinkAt,
    /// `mkdirat`.
    MkdirAt,
    /// `symlinkat`.
    SymlinkAt,
    /// `linkat`.
    LinkAt,
    /// Send a message to another ring.
    MsgRing,
    /// `fsetxattr`.
    FileSetXAttr,
    /// `setxattr`.
    SetXAttr,
    /// `fgetxattr`.
    FileGetXAttr,
    /// `getxattr`.
    GetXAttr,
    /// `socket`.
    Socket,
    /// A driver-specific command.
    UringCmd,
    /// Zero-copy `send`.
    SendZeroCopy,
    /// Zero-copy `sendmsg`.
    SendMsgZeroCopy,
}

impl OpCode {
    /// The number the kernel knows the operation by.
    pub open spec fn spec_code(self) -> u8 {
        match self {
            OpCode::NoOp => 0u8,
            OpCode::ReadVector => 1u8,
            OpCode::WriteVector => 2u8,
            OpCode::FileSync => 3u8,
            OpCode::ReadFixed => 4u8,
            OpCode::WriteFixed => 5u8,
            OpCode::PollAdd => 6u8,
            OpCode::PollRemove => 7u8,
            OpCode::SyncFileRange => 8u8,
            OpCode::SendMsg => 9u8,
            OpCode::RecvMsg => 10u8,
            OpCode::Timeout => 11u8,
            OpCode::TimeoutRemove => 12u8,
            OpCode::Accept => 13u8,
            OpCode::AsyncCancel => 14u8,
            OpCode::LinkTimeout => 15u8,
            OpCode::Connect => 16u8,
            OpCode::FileAllocate => 17u8,
            OpCode::OpenAt => 18u8,
            OpCode::Close => 19u8,
            OpCode::FilesUpdate => 20u8,
            OpCode::Statx => 21u8,
            OpCode::Read => 22u8,
            OpCode::Write => 23u8,
            OpCode::FileAdvise => 24u8,
            OpCode::MemoryAdvise => 25u8,
            OpCode::Send => 26u8,
            OpCode::Recv => 27u8,
            OpCode::OpenAt2 => 28u8,
            OpCode::EPollCtl => 29u8,
            OpCode::Splice => 30u8,
            OpCode::ProvideBuffers => 31u8,
            OpCode::RemoveBuffers => 32u8,
            OpCode::Tee => 33u8,
            OpCode::Shutdown => 34u8,
            OpCode::RenameAt => 35u8,
            OpCode::UnlinkAt => 36u8,
            OpCode::MkdirAt => 37u8,
            OpCode::SymlinkAt => 38u8,
            OpCode::LinkAt => 39u8,
            OpCode::MsgRing => 40u8,
            OpCode::FileSetXAttr => 41u8,
            OpCode::SetXAttr => 42u8,
            OpCode::FileGetXAttr => 43u8,
            OpCode::GetXAttr => 44u8,
            OpCode::Socket => 45u8,
            OpCode::UringCmd => 46u8,
            OpCode::SendZeroCopy => 47u8,
            OpCode::SendMsgZeroCopy => 48u8,
        }
    }

    /// The number the kernel knows the operation by.
    pub fn code(&self) -> (code: u8)
        ensures
            code == self.spec_code(),
            code < OP_COUNT,
    {
        match self {
            OpCode::NoOp => 0u8,
            OpCode::ReadVector => 1u8,
            OpCode::WriteVector => 2u8,
            OpCode::FileSync => 3u8,
            OpCode::ReadFixed => 4u8,
            OpCode::WriteFixed => 5u8,
            OpCode::PollAdd => 6u8,
            OpCode::PollRemove => 7u8,
            OpCode::SyncFileRange => 8u8,
            OpCode::SendMsg => 9u8,
            OpCode::RecvMsg => 10u8,
            OpCode::Timeout => 11u8,
            OpCode::TimeoutRemove => 12u8,
            OpCode::Accept => 13u8,
            OpCode::AsyncCancel => 14u8,
            OpCode::LinkTimeout => 15u8,
            OpCode::Connect => 16u8,
            OpCode::FileAllocate => 17u8,
            OpCode::OpenAt => 18u8,
            OpCode::Close => 19u8,
            OpCode::FilesUpdate => 20u8,
            OpCode::Statx => 21u8,
            OpCode::Read => 22u8,
            OpCode::Write => 23u8,
            OpCode::FileAdvise => 24u8,
            OpCode::MemoryAdvise => 25u8,
            OpCode::Send => 26u8,
            OpCode::Recv => 27u8,
            OpCode::OpenAt2 => 28u8,
            OpCode::EPollCtl => 29u8,
            OpCode::Splice => 30u8,
            OpCode::ProvideBuffers => 31u8,
            OpCode::RemoveBuffers => 32u8,
            OpCode::Tee => 33u8,
            OpCode::Shutdown => 34u8,
            OpCode::RenameAt => 35u8,
            OpCode::UnlinkAt => 36u8,
            OpCode::MkdirAt => 37u8,
            OpCode::SymlinkAt => 38u8,
            OpCode::LinkAt => 39u8,
            OpCode::MsgRing => 40u8,
            OpCode::FileSetXAttr => 41u8,
            OpCode::SetXAttr => 42u8,
            OpCode::FileGetXAttr => 43u8,
            OpCode::GetXAttr => 44u8,
            OpCode::Socket => 45u8,
            OpCode::UringCmd => 46u8,
            OpCode::SendZeroCopy => 47u8,
            OpCode::SendMsgZeroCopy => 48u8,
        }
    }

    /// The operation with the given number, if there is one.
    pub fn from_code(code: u8) -> (op: Option<OpCode>)
        ensures
            code < OP_COUNT <==> op.is_some(),
            op.is_some() ==> op.unwrap().spec_code() == code,
    {
        match code {
            0u8 => Some(OpCode::NoOp),
            1u8 => Some(OpCode::ReadVector),
            2u8 => Some(OpCode::WriteVector),
            3u8 => Some(OpCode::FileSync),
            4u8 => Some(OpCode::ReadFixed),
            5u8 => Some(OpCode::WriteFixed),
            6u8 => Some(OpCode::PollAdd),
            7u8 => Some(OpCode::PollRemove),
            8u8 => Some(OpCode::SyncFileRange),
            9u8 => Some(OpCode::SendMsg),
            10u8 => Some(OpCode::RecvMsg),
            11u8 => Some(OpCode::Timeout),
            12u8 => Some(OpCode::TimeoutRemove),
            13u8 => Some(OpCode::Accept),
            14u8 => Some(OpCode::AsyncCancel),
            15u8 => Some(OpCode::LinkTimeout),
            16u8 => Some(OpCode::Connect),
            17u8 => Some(OpCode::FileAllocate),
            18u8 => Some(OpCode::OpenAt),
            19u8 => Some(OpCode::Close),
            20u8 => Some(OpCode::FilesUpdate),
            21u8 => Some(OpCode::Statx),
            22u8 => Some(OpCode::Read),
            23u8 => Some(OpCode::Write),
            24u8 => Some(OpCode::FileAdvise),
            25u8 => Some(OpCode::MemoryAdvise),
            26u8 => Some(OpCode::Send),
            27u8 => Some(OpCode::Recv),
            28u8 => Some(OpCode::OpenAt2),
            29u8 => Some(OpCode::EPollCtl),
            30u8 => Some(OpCode::Splice),
            31u8 => Some(OpCode::ProvideBuffers),
            32u8 => Some(OpCode::RemoveBuffers),
            33u8 => Some(OpCode::Tee),
            34u8 => Some(OpCode::Shutdown),
            35u8 => Some(OpCode::RenameAt),
            36u8 => Some(OpCode::UnlinkAt),
            37u8 => Some(OpCode::MkdirAt),
            38u8 => Some(OpCode::SymlinkAt),
            39u8 => Some(OpCode::LinkAt),
            40u8 => Some(OpCode::MsgRing),
            41u8 => Some(OpCode::FileSetXAttr),
            42u8 => Some(OpCode::SetXAttr),
            43u8 => Some(OpCode::FileGetXAttr),
            44u8 => Some(OpCode::GetXAttr),
            45u8 => Some(OpCode::Socket),
            46u8 => Some(OpCode::UringCmd),
            47u8 => Some(OpCode::SendZeroCopy),
            48u8 => Some(OpCode::SendMsgZeroCopy),
            _ => None,
        }
    }
}

/// How many operations there are; every code is below it.
pub const OP_COUNT: u8 = 49;

/// Two operations with the same code are the same operation.
pub proof fn lemma_code_injective(a: OpCode, b: OpCode)
    requires
        a.spec_code() == b.spec_code(),
    ensures
        a == b,
{
}


/// Cancel flag: the entry names a descriptor, not a request.
pub const ASYNC_CANCEL_FD: u32 = 0x2;

/// Cancel flag: cancel any operation in flight.
pub const ASYNC_CANCEL_ANY: u32 = 0x4;

/// Cancel flag: the descriptor is an index into the registered files.
pub const ASYNC_CANCEL_FD_FIXED: u32 = 0x8;

/// Size in bytes of the argument block of `openat2`.
pub const OPEN_HOW_SIZE: u32 = 24;

/// One entry of the submission ring. The kernel overlays several meanings on
/// some of its words; each field here is one such word.
#[derive(Clone, Copy, Debug, PartialEq, Eq, Structural)]
pub struct SubmissionEntry {
    /// The operation to run.
    pub op: OpCode,
    /// Flags of the entry itself.
    pub flags: u8,
    /// Priority of the request.
    pub ioprio: u16,
    /// The descriptor to work on.
    pub fd: i32,
    /// An offset, or a second address.
    pub off: u64,
    /// An address, or the offset into the input of a splice.
    pub addr: u64,
    /// A length in bytes or a count.
    pub len: u32,
    /// The flags of the operation.
    pub rw_flags: u32,
    /// The word that comes back with the completion: the address of the request.
    pub user_data: u64,
    /// A buffer index or a buffer group.
    pub buf: u16,
    /// The personality to run as.
    pub personality: u16,
    /// The input descriptor of a splice, a file index, or an address length.
    pub file: u32,
    /// A third address.
    pub addr3: u64,
    /// Padding, zero.
    pub pad: u64,
}

impl SubmissionEntry {
    /// The entry for `op` with every other word zero.
    pub open spec fn spec_new(op: OpCode) -> SubmissionEntry {
        SubmissionEntry {
            op,
            flags: 0,
            ioprio: 0,
            fd: 0,
            off: 0,
            addr: 0,
            len: 0,
            rw_flags: 0,
            user_data: 0,
            buf: 0,
            personality: 0,
            file: 0,
            addr3: 0,
            pad: 0,
        }
    }
}

fn new_op(op: OpCode) -> (entry: SubmissionEntry)
    ensures
        entry == SubmissionEntry::spec_new(op),
{
    SubmissionEntry {
        op,
        flags: 0,
        ioprio: 0,
        fd: 0,
        off: 0,
        addr: 0,
        len: 0,
        rw_flags: 0,
        user_data: 0,
        buf: 0,
        personality: 0,
        file: 0,
        addr3: 0,
        pad: 0,
    }
}

fn rw(entry: &mut SubmissionEntry, fd: i32, addr: u64, len: u32, off: u64, flags: u32)
    ensures
        *final(entry) == (SubmissionEntry { fd, addr, len, off, rw_flags: flags, ..*old(entry) }),
{
    entry.fd = fd;
    entry.addr = addr;
    entry.len = len;
    entry.off = off;
    entry.rw_flags = flags;
}

fn rw_fixed(
    entry: &mut SubmissionEntry,
    fd: i32,
    addr: u64,
    len: u32,
    off: u64,
    flags: u32,
    buf_index: u16,
)
    ensures
        *final(entry) == (SubmissionEntry {
            fd,
            addr,
            len,
            off,
            rw_flags: flags,
            buf: buf_index,
            ..*old(entry)
        }),
{
    rw(entry, fd, addr, len, off, flags);
    entry.buf = buf_index;
}

fn close(entry: &mut SubmissionEntry, fd: i32, file_index: u32)
    ensures
        *final(entry) == (SubmissionEntry {
            fd,
            addr: 0,
            len: 0,
            off: 0,
            rw_flags: 0,
            buf: 0,
            file: file_index,
            ..*old(entry)
        }),
{
    rw_fixed(entry, fd, 0, 0, 0, 0, 0);
    entry.file = file_index;
}

fn sync(entry: &mut SubmissionEntry, fd: i32, len: u32, off: u64, flags: u32)
    ensures
        *final(entry) == (SubmissionEntry {
            fd,
            addr: 0,
            len,
            off,
            rw_flags: flags,
            buf: 0,
            file: 0,
            ..*old(entry)
        }),
{
    rw_fixed(entry, fd, 0, len, off, flags, 0);
    entry.file = 0;
}

fn advise(entry: &mut SubmissionEntry, addr: u64, len: u32, off: u64, flags: u32)
    ensures
        *final(entry) == (SubmissionEntry {
            addr,
            len,
            off,
            rw_flags: flags,
            buf: 0,
            file: 0,
            ..*old(entry)
        }),
{
    entry.addr = addr;
    entry.len = len;
    entry.off = off;
    entry.rw_flags = flags;
    entry.buf = 0;
    entry.file = 0;
}

fn fs(entry: &mut SubmissionEntry, fd0: i32, ptr0: u64, len: u32, ptr1: u64, flags: u32)
    ensures
        *final(entry) == (SubmissionEntry {
            fd: fd0,
            addr: ptr0,
            len,
            off: ptr1,
            rw_flags: flags,
            buf: 0,
            file: 0,
            ..*old(entry)
        }),
{
    entry.fd = fd0;
    entry.addr = ptr0;
    entry.len = len;
    entry.off = ptr1;
    entry.rw_flags = flags;
    entry.buf = 0;
    entry.file = 0;
}

fn fxattr(entry: &mut SubmissionEntry, fd: i32, name: u64, value: u64, len: u32, flags: u32)
    ensures
        *final(entry) == (SubmissionEntry {
            fd,
            addr: name,
            len,
            off: value,
            rw_flags: flags,
            ..*old(entry)
        }),
{
    entry.fd = fd;
    entry.addr = name;
    entry.len = len;
    entry.off = value;
    entry.rw_flags = flags;
}

fn xattr(entry: &mut SubmissionEntry, path: u64, name: u64, value: u64, len: u32, flags: u32)
    ensures
        *final(entry) == (SubmissionEntry {
            addr3: path,
            addr: name,
            len,
            off: value,
            rw_flags: flags,
            ..*old(entry)
        }),
{
    entry.addr3 = path;
    entry.addr = name;
    entry.len = len;
    entry.off = value;
    entry.rw_flags = flags;
}

fn splice(
    entry: &mut SubmissionEntry,
    fd_in: i32,
    off_in: u64,
    fd_out: i32,
    off_out: u64,
    len: u32,
    flags: u32,
)
    ensures
        *final(entry) == (SubmissionEntry {
            file: fd_in as u32,
            addr: off_in,
            fd: fd_out,
            off: off_out,
            len,
            rw_flags: flags,
            ..*old(entry)
        }),
{
    entry.file = #[verifier::truncate] (fd_in as u32);
    entry.addr = off_in;
    entry.fd = fd_out;
    entry.off = off_out;
    entry.len = len;
    entry.rw_flags = flags;
}

fn socket(
    entry: &mut SubmissionEntry,
    fd: i32,
    addr: u64,
    len: u32,
    off: u64,
    flags: u32,
    file_index: u32,
)
    ensures
        *final(entry) == (SubmissionEntry {
            fd,
            addr,
            len,
            off,
            rw_flags: flags,
            buf: 0,
            file: file_index,
            ..*old(entry)
        }),
{
    rw_fixed(entry, fd, addr, len, off, flags, 0);
    entry.file = file_index;
}

fn socket_rw(entry: &mut SubmissionEntry, fd: i32, addr: u64, len: u32, flags: u32)
    ensures
        *final(entry) == (SubmissionEntry {
            fd,
            addr,
            len,
            off: 0,
            rw_flags: flags,
            file: 0,
            ..*old(entry)
        }),
{
    rw(entry, fd, addr, len, 0, flags);
    entry.file = 0;
}

fn buffer(entry: &mut SubmissionEntry, addr: u64, len: u32, nr: u16, bgid: u16, bid: u16)
    ensures
        *final(entry) == (SubmissionEntry {
            fd: nr as i32,
            addr,
            len,
            off: bid as u64,
            buf: bgid,
            rw_flags: 0,
            ..*old(entry)
        }),
{
    entry.fd = nr as i32;
    entry.addr = addr;
    entry.len = len;
    entry.off = bid as u64;
    entry.buf = bgid;
    entry.rw_flags = 0;
}

/// The poll mask as the kernel reads it on a little-endian machine: unchanged.
fn swap_poll_mask(mask: u32) -> (res: u32)
    ensures
        res == mask,
{
    mask
}

/// Fills in submission entries. Every adapter leaves `user_data` zero: the
/// engine writes the request's address there when it queues the entry.
/// Addresses are passed as integers; a signed offset or descriptor that lands
/// in an unsigned word keeps its bits.
pub struct Op;

impl Op {
    /// An operation that does nothing.
    pub fn nop() -> (entry: SubmissionEntry)
        ensures
            entry == SubmissionEntry::spec_new(OpCode::NoOp),
    {
        new_op(OpCode::NoOp)
    }

    /// `openat` of the path at the address `path`, relative to `dfd`.
    pub fn openat(
        dfd: i32,
        path: u64,
        flags: u32,
        mode: u32,
        file_index: u32,
    ) -> (entry: SubmissionEntry)
        ensures
            entry == (SubmissionEntry {
                fd: dfd,
                addr: path,
                len: mode,
                rw_flags: flags,
                file: file_index,
                ..SubmissionEntry::spec_new(OpCode::OpenAt)
            }),
    {
        let mut entry = new_op(OpCode::OpenAt);
        entry.fd = dfd;
        entry.addr = path;
        entry.len = mode;
        entry.rw_flags = flags;
        entry.buf = 0;
        entry.file = file_index;
        entry
    }

    /// `openat2` of the path at the address `path`, relative to `dfd`, as the
    /// block at the address `how` says.
    pub fn openat2(dfd: i32, path: u64, how: u64, file_index: u32) -> (entry: SubmissionEntry)
        ensures
            entry == (SubmissionEntry {
                fd: dfd,
                addr: path,
                len: OPEN_HOW_SIZE,
                off: how,
                file: file_index,
                ..SubmissionEntry::spec_new(OpCode::OpenAt2)
            }),
    {
        let mut entry = new_op(OpCode::OpenAt2);
        entry.fd = dfd;
        entry.addr = path;
        entry.len = OPEN_HOW_SIZE;
        entry.off = how;
        entry.buf = 0;
        entry.file = file_index;
        entry
    }

    /// `close` of the descriptor `fd`.
    pub fn close(fd: i32) -> (entry: SubmissionEntry)
        ensures
            entry == (SubmissionEntry { fd, ..SubmissionEntry::spec_new(OpCode::Close) }),
    {
        let mut entry = new_op(OpCode::Close);
        close(&mut entry, fd, 0);
        entry
    }

    /// `close` of the registered file `file_index`.
    pub fn close_direct(file_index: u32) -> (entry: SubmissionEntry)
        ensures
            entry == (SubmissionEntry {
                file: file_index,
                ..SubmissionEntry::spec_new(OpCode::Close)
            }),
    {
        let mut entry = new_op(OpCode::Close);
        close(&mut entry, 0, file_index);
        entry
    }

    /// `read` of up to `len` bytes from `fd` at `off` to the address `addr`.
    pub fn read(fd: i32, addr: u64, len: u32, off: i64, flags: u32) -> (entry: SubmissionEntry)
        ensures
            entry == (SubmissionEntry {
                fd,
                addr,
                len,
                off: off as u64,
                rw_flags: flags,
                ..SubmissionEntry::spec_new(OpCode::Read)
            }),
    {
        let mut entry = new_op(OpCode::Read);
        rw(&mut entry, fd, addr, len, #[verifier::truncate] (off as u64), flags);
        entry
    }

    /// `write` of up to `len` bytes from the address `addr` to `fd` at `off`.
    pub fn write(fd: i32, addr: u64, len: u32, off: i64, flags: u32) -> (entry: SubmissionEntry)
        ensures
            entry == (SubmissionEntry {
                fd,
                addr,
                len,
                off: off as u64,
                rw_flags: flags,
                ..SubmissionEntry::spec_new(OpCode::Write)
            }),
    {
        let mut entry = new_op(OpCode::Write);
        rw(&mut entry, fd, addr, len, #[verifier::truncate] (off as u64), flags);
        entry
    }

    /// `readv` from `fd` at `off` into the `iovecs_len` buffers listed at the
    /// address `iovecs`.
    pub fn readv(
        fd: i32,
        iovecs: u64,
        iovecs_len: u32,
        off: i64,
        flags: u32,
    ) -> (entry: SubmissionEntry)
        ensures
            entry == (SubmissionEntry {
                fd,
                addr: iovecs,
                len: iovecs_len,
                off: off as u64,
                rw_flags: flags,
                ..SubmissionEntry::spec_new(OpCode::ReadVector)
            }),
    {
        let mut entry = new_op(OpCode::ReadVector);
        rw(&mut entry, fd, iovecs, iovecs_len, #[verifier::truncate] (off as u64), flags);
        entry
    }

    /// `writev` to `fd` at `off` from the `iovecs_len` buffers listed at the
    /// address `iovecs`.
    pub fn writev(
        fd: i32,
        iovecs: u64,
        iovecs_len: u32,
        off: i64,
        flags: u32,
    ) -> (entry: SubmissionEntry)
        ensures
            entry == (SubmissionEntry {
                fd,
                addr: iovecs,
                len: iovecs_len,
                off: off as u64,
                rw_flags: flags,
                ..SubmissionEntry::spec_new(OpCode::WriteVector)
            }),
    {
        let mut entry = new_op(OpCode::WriteVector);
        rw(&mut entry, fd, iovecs, iovecs_len, #[verifier::truncate] (off as u64), flags);
        entry
    }

    /// `read` into the registered buffer `buf_index`.
    pub fn read_fixed(
        fd: i32,
        addr: u64,
        len: u32,
        off: i64,
        buf_index: u16,
        flags: u32,
    ) -> (entry: SubmissionEntry)
        ensures
            entry == (SubmissionEntry {
                fd,
                addr,
                len,
                off: off as u64,
                rw_flags: flags,
                buf: buf_index,
                ..SubmissionEntry::spec_new(OpCode::ReadFixed)
            }),
    {
        let mut entry = new_op(OpCode::ReadFixed);
        rw_fixed(
            &mut entry,
            fd,
            addr,
            len,
            #[verifier::truncate] (off as u64),
            flags,
            buf_index,
        );
        entry
    }

    /// `write` from the registered buffer `buf_index`.
    pub fn write_fixed(
        fd: i32,
        addr: u64,
        len: u32,
        off: i64,
        buf_index: u16,
        flags: u32,
    ) -> (entry: SubmissionEntry)
        ensures
            entry == (SubmissionEntry {
                fd,
                addr,
                len,
                off: off as u64,
                rw_flags: flags,
                buf: buf_index,
                ..SubmissionEntry::spec_new(OpCode::WriteFixed)
            }),
    {
        let mut entry = new_op(OpCode::WriteFixed);
        rw_fixed(
            &mut entry,
            fd,
            addr,
            len,
            #[verifier::truncate] (off as u64),
            flags,
            buf_index,
        );
        entry
    }

    /// `fsync` of `fd`.
    pub fn fsync(fd: i32, flags: u32) -> (entry: SubmissionEntry)
        ensures
            entry == (SubmissionEntry {
                fd,
                rw_flags: flags,
                ..SubmissionEntry::spec_new(OpCode::FileSync)
            }),
    {
        let mut entry = new_op(OpCode::FileSync);
        sync(&mut entry, fd, 0, 0, flags);
        entry
    }

    /// A timeout that reads its interval at the address `timespec` and fires
    /// early once `count` other operations have completed.
    pub fn timeout(timespec: u64, count: u32, flags: u32) -> (entry: SubmissionEntry)
        ensures
            entry == (SubmissionEntry {
                addr: timespec,
                len: 1,
                off: count as u64,
                rw_flags: flags,
                ..SubmissionEntry::spec_new(OpCode::Timeout)
            }),
    {
        let mut entry = new_op(OpCode::Timeout);
        rw(&mut entry, 0, timespec, 1, count as u64, flags);
        entry
    }

    /// `sync_file_range` of `len` bytes of `fd` from `off`.
    pub fn sync_file_range(fd: i32, len: u32, off: i64, flags: u32) -> (entry: SubmissionEntry)
        ensures
            entry == (SubmissionEntry {
                fd,
                len,
                off: off as u64,
                rw_flags: flags,
                ..SubmissionEntry::spec_new(OpCode::SyncFileRange)
            }),
    {
        let mut entry = new_op(OpCode::SyncFileRange);
        sync(&mut entry, fd, len, #[verifier::truncate] (off as u64), flags);
        entry
    }

    /// `fallocate` of `len` bytes of `fd` from `off`.
    pub fn fallocate(fd: i32, mode: i32, off: i64, len: i64) -> (entry: SubmissionEntry)
        ensures
            entry == (SubmissionEntry {
                fd,
                addr: len as u64,
                len: mode as u32,
                off: off as u64,
                ..SubmissionEntry::spec_new(OpCode::FileAllocate)
            }),
    {
        let mut entry = new_op(OpCode::FileAllocate);
        rw_fixed(
            &mut entry,
            fd,
            #[verifier::truncate] (len as u64),
            #[verifier::truncate] (mode as u32),
            #[verifier::truncate] (off as u64),
            0,
            0,
        );
        entry.file = 0;
        entry
    }

    /// `posix_fadvise` on `len` bytes of `fd` from `off`.
    pub fn fadvise(fd: i32, off: u64, len: u32, flags: u32) -> (entry: SubmissionEntry)
        ensures
            entry == (SubmissionEntry {
                fd,
                len,
                off,
                rw_flags: flags,
                ..SubmissionEntry::spec_new(OpCode::FileAdvise)
            }),
    {
        let mut entry = new_op(OpCode::FileAdvise);
        advise(&mut entry, 0, len, off, flags);
        entry.fd = fd;
        entry
    }

    /// `madvise` on `len` bytes from the address `addr`.
    pub fn madvise(addr: u64, len: u32, flags: u32) -> (entry: SubmissionEntry)
        ensures
            entry == (SubmissionEntry {
                addr,
                len,
                rw_flags: flags,
                ..SubmissionEntry::spec_new(OpCode::MemoryAdvise)
            }),
    {
        let mut entry = new_op(OpCode::MemoryAdvise);
        advise(&mut entry, addr, len, 0, flags);
        entry
    }

    /// `renameat2` of the path at `old_path` to the path at `new_path`.
    pub fn renameat(
        old_dfd: i32,
        old_path: u64,
        new_dfd: i32,
        new_path: u64,
        flags: u32,
    ) -> (entry: SubmissionEntry)
        ensures
            entry == (SubmissionEntry {
                fd: old_dfd,
                addr: old_path,
                len: new_dfd as u32,
                off: new_path,
                rw_flags: flags,
                ..SubmissionEntry::spec_new(OpCode::RenameAt)
            }),
    {
        let mut entry = new_op(OpCode::RenameAt);
        fs(&mut entry, old_dfd, old_path, #[verifier::truncate] (new_dfd as u32), new_path, flags);
        entry
    }

    /// `unlinkat` of the path at the address `path`, relative to `dfd`.
    pub fn unlinkat(dfd: i32, path: u64, flags: u32) -> (entry: SubmissionEntry)
        ensures
            entry == (SubmissionEntry {
                fd: dfd,
                addr: path,
                rw_flags: flags,
                ..SubmissionEntry::spec_new(OpCode::UnlinkAt)
            }),
    {
        let mut entry = new_op(OpCode::UnlinkAt);
        fs(&mut entry, dfd, path, 0, 0, flags);
        entry
    }

    /// `mkdirat` of the path at the address `path`, relative to `dfd`.
    pub fn mkdirat(dfd: i32, path: u64, mode: u32) -> (entry: SubmissionEntry)
        ensures
            entry == (SubmissionEntry {
                fd: dfd,
                addr: path,
                len: mode,
                ..SubmissionEntry::spec_new(OpCode::MkdirAt)
            }),
    {
        let mut entry = new_op(OpCode::MkdirAt);
        fs(&mut entry, dfd, path, mode, 0, 0);
        entry
    }

    /// `symlinkat`: a link at `linkpath`, relative to `newdirfd`, to `target`.
    pub fn symlinkat(target: u64, newdirfd: i32, linkpath: u64) -> (entry: SubmissionEntry)
        ensures
            entry == (SubmissionEntry {
                fd: newdirfd,
                addr: target,
                off: linkpath,
                ..SubmissionEntry::spec_new(OpCode::SymlinkAt)
            }),
    {
        let mut entry = new_op(OpCode::SymlinkAt);
        fs(&mut entry, newdirfd, target, 0, linkpath, 0);
        entry
    }

    /// `linkat` of the path at `old_path` to the path at `new_path`.
    pub fn linkat(
        old_dfd: i32,
        old_path: u64,
        new_dfd: i32,
        new_path: u64,
        flags: u32,
    ) -> (entry: SubmissionEntry)
        ensures
            entry == (SubmissionEntry {
                fd: old_dfd,
                addr: old_path,
                len: new_dfd as u32,
                off: new_path,
                rw_flags: flags,
                ..SubmissionEntry::spec_new(OpCode::LinkAt)
            }),
    {
        let mut entry = new_op(OpCode::LinkAt);
        fs(&mut entry, old_dfd, old_path, #[verifier::truncate] (new_dfd as u32), new_path, flags);
        entry
    }

    /// `fgetxattr` of the attribute named at `name` into `len` bytes at
    /// `value`.
    pub fn fgetxattr(fd: i32, name: u64, value: u64, len: u32) -> (entry: SubmissionEntry)
        ensures
            entry == (SubmissionEntry {
                fd,
                addr: name,
                len,
                off: value,
                ..SubmissionEntry::spec_new(OpCode::FileGetXAttr)
            }),
    {
        let mut entry = new_op(OpCode::FileGetXAttr);
        fxattr(&mut entry, fd, name, value, len, 0);
        entry
    }

    /// `fsetxattr` of the attribute named at `name` from `len` bytes at
    /// `value`.
    pub fn fsetxattr(
        fd: i32,
        name: u64,
        value: u64,
        len: u32,
        flags: u32,
    ) -> (entry: SubmissionEntry)
        ensures
            entry == (SubmissionEntry {
                fd,
                addr: name,
                len,
                off: value,
                rw_flags: flags,
                ..SubmissionEntry::spec_new(OpCode::FileSetXAttr)
            }),
    {
        let mut entry = new_op(OpCode::FileSetXAttr);
        fxattr(&mut entry, fd, name, value, len, flags);
        entry
    }

    /// `getxattr` of the attribute named at `name` of the file at `path`.
    pub fn getxattr(path: u64, name: u64, value: u64, len: u32) -> (entry: SubmissionEntry)
        ensures
            entry == (SubmissionEntry {
                addr3: path,
                addr: name,
                len,
                off: value,
                ..SubmissionEntry::spec_new(OpCode::GetXAttr)
            }),
    {
        let mut entry = new_op(OpCode::GetXAttr);
        xattr(&mut entry, path, name, value, len, 0);
        entry
    }

    /// `setxattr` of the attribute named at `name` of the file at `path`.
    pub fn setxattr(
        path: u64,
        name: u64,
        value: u64,
        len: u32,
        flags: u32,
    ) -> (entry: SubmissionEntry)
        ensures
            entry == (SubmissionEntry {
                addr3: path,
                addr: name,
                len,
                off: value,
                rw_flags: flags,
                ..SubmissionEntry::spec_new(OpCode::SetXAttr)
            }),
    {
        let mut entry = new_op(OpCode::SetXAttr);
        xattr(&mut entry, path, name, value, len, flags);
        entry
    }

    /// `splice` of `len` bytes from `fd_in` at `off_in` to `fd_out` at
    /// `off_out`.
    pub fn splice(
        fd_in: i32,
        off_in: i64,
        fd_out: i32,
        off_out: i64,
        len: u32,
        flags: u32,
    ) -> (entry: SubmissionEntry)
        ensures
            entry == (SubmissionEntry {
                file: fd_in as u32,
                addr: off_in as u64,
                fd: fd_out,
                off: off_out as u64,
                len,
                rw_flags: flags,
                ..SubmissionEntry::spec_new(OpCode::Splice)
            }),
    {
        let mut entry = new_op(OpCode::Splice);
        splice(
            &mut entry,
            fd_in,
            #[verifier::truncate] (off_in as u64),
            fd_out,
            #[verifier::truncate] (off_out as u64),
            len,
            flags,
        );
        entry
    }

    /// `tee` of `len` bytes from `fd_in` to `fd_out`.
    pub fn tee(fd_in: i32, fd_out: i32, len: u32, flags: u32) -> (entry: SubmissionEntry)
        ensures
            entry == (SubmissionEntry {
                file: fd_in as u32,
                fd: fd_out,
                len,
                rw_flags: flags,
                ..SubmissionEntry::spec_new(OpCode::Tee)
            }),
    {
        let mut entry = new_op(OpCode::Tee);
        splice(&mut entry, fd_in, 0, fd_out, 0, len, flags);
        entry
    }

    /// `statx` of `path` relative to `fd`, writing to the block at the
    /// address `statx`.
    pub fn statx(fd: i32, path: u64, flags: u32, mask: u32, statx: u64) -> (entry: SubmissionEntry)
        ensures
            entry == (SubmissionEntry {
                fd,
                addr: path,
                len: mask,
                off: statx,
                rw_flags: flags,
                ..SubmissionEntry::spec_new(OpCode::Statx)
            }),
    {
        let mut entry = new_op(OpCode::Statx);
        rw_fixed(&mut entry, fd, path, mask, statx, flags, 0);
        entry
    }

    /// `socket` with the given domain, type and protocol.
    pub fn socket(
        domain: u32,
        socket_type: u32,
        protocol: u32,
        flags: u32,
        file_index: u32,
    ) -> (entry: SubmissionEntry)
        ensures
            entry == (SubmissionEntry {
                fd: domain as i32,
                len: protocol,
                off: socket_type as u64,
                rw_flags: flags,
                file: file_index,
                ..SubmissionEntry::spec_new(OpCode::Socket)
            }),
    {
        let mut entry = new_op(OpCode::Socket);
        socket(
            &mut entry,
            #[verifier::truncate] (domain as i32),
            0,
            protocol,
            socket_type as u64,
            flags,
            file_index,
        );
        entry
    }

    /// `connect` of `fd` to the address at `addr`, `addrlen` bytes long.
    pub fn connect(fd: i32, addr: u64, addrlen: i32) -> (entry: SubmissionEntry)
        ensures
            entry == (SubmissionEntry {
                fd,
                addr,
                off: addrlen as u64,
                ..SubmissionEntry::spec_new(OpCode::Connect)
            }),
    {
        let mut entry = new_op(OpCode::Connect);
        socket(&mut entry, fd, addr, 0, #[verifier::truncate] (addrlen as u64), 0, 0);
        entry
    }

    /// `accept4` on `fd`; the peer's address goes to the address `addr`, its
    /// length to the address `addrlen`.
    pub fn accept(
        fd: i32,
        addr: u64,
        addrlen: u64,
        flags: u32,
        file_index: u32,
    ) -> (entry: SubmissionEntry)
        ensures
            entry == (SubmissionEntry {
                fd,
                addr,
                off: addrlen,
                rw_flags: flags,
                file: file_index,
                ..SubmissionEntry::spec_new(OpCode::Accept)
            }),
    {
        let mut entry = new_op(OpCode::Accept);
        socket(&mut entry, fd, addr, 0, addrlen, flags, file_index);
        entry
    }

    /// `recv` of up to `len` bytes from `fd` to the address `buf`.
    pub fn recv(fd: i32, buf: u64, len: u32, flags: u32) -> (entry: SubmissionEntry)
        ensures
            entry == (SubmissionEntry {
                fd,
                addr: buf,
                len,
                rw_flags: flags,
                ..SubmissionEntry::spec_new(OpCode::Recv)
            }),
    {
        let mut entry = new_op(OpCode::Recv);
        socket_rw(&mut entry, fd, buf, len, flags);
        entry
    }

    /// `send` of up to `len` bytes from the address `buf` on `fd`.
    pub fn send(fd: i32, buf: u64, len: u32, flags: u32) -> (entry: SubmissionEntry)
        ensures
            entry == (SubmissionEntry {
                fd,
                addr: buf,
                len,
                rw_flags: flags,
                ..SubmissionEntry::spec_new(OpCode::Send)
            }),
    {
        let mut entry = new_op(OpCode::Send);
        socket_rw(&mut entry, fd, buf, len, flags);
        entry
    }

    /// `recvmsg` on `fd` with the header at the address `msg`.
    pub fn recvmsg(fd: i32, msg: u64, flags: u32) -> (entry: SubmissionEntry)
        ensures
            entry == (SubmissionEntry {
                fd,
                addr: msg,
                len: 1,
                rw_flags: flags,
                ..SubmissionEntry::spec_new(OpCode::RecvMsg)
            }),
    {
        let mut entry = new_op(OpCode::RecvMsg);
        socket_rw(&mut entry, fd, msg, 1, flags);
        entry
    }

    /// `sendmsg` on `fd` with the header at the address `msg`.
    pub fn sendmsg(fd: i32, msg: u64, flags: u32) -> (entry: SubmissionEntry)
        ensures
            entry == (SubmissionEntry {
                fd,
                addr: msg,
                len: 1,
                rw_flags: flags,
                ..SubmissionEntry::spec_new(OpCode::SendMsg)
            }),
    {
        let mut entry = new_op(OpCode::SendMsg);
        socket_rw(&mut entry, fd, msg, 1, flags);
        entry
    }

    /// A zero-copy send on a connected socket.
    pub fn send_zc(
        fd: i32,
        buf: u64,
        len: u32,
        flags: u32,
        buf_index: u16,
    ) -> (entry: SubmissionEntry)
        ensures
            entry == (SubmissionEntry {
                fd,
                addr: buf,
                len,
                rw_flags: flags,
                buf: buf_index,
                ..SubmissionEntry::spec_new(OpCode::SendZeroCopy)
            }),
    {
        Self::sendto_zc(fd, buf, len, flags, 0, 0, buf_index)
    }

    /// A zero-copy send to the address at `addr`, which is `addrlen` bytes
    /// long; the length has sixteen bits in the entry.
    pub fn sendto_zc(
        fd: i32,
        buf: u64,
        len: u32,
        flags: u32,
        addr: u64,
        addrlen: u32,
        buf_index: u16,
    ) -> (entry: SubmissionEntry)
        requires
            addrlen <= u16::MAX,
        ensures
            entry == (SubmissionEntry {
                fd,
                addr: buf,
                len,
                off: addr,
                file: addrlen,
                rw_flags: flags,
                buf: buf_index,
                ..SubmissionEntry::spec_new(OpCode::SendZeroCopy)
            }),
    {
        let mut entry = new_op(OpCode::SendZeroCopy);
        entry.fd = fd;
        entry.addr = buf;
        entry.len = len;
        entry.off = addr;
        entry.file = addrlen;
        entry.rw_flags = flags;
        entry.addr3 = 0;
        entry.buf = buf_index;
        entry.pad = 0;
        entry
    }

    /// `shutdown` of the part `how` of the connection of `fd`.
    pub fn shutdown(fd: i32, how: u32) -> (entry: SubmissionEntry)
        ensures
            entry == (SubmissionEntry {
                fd,
                len: how,
                ..SubmissionEntry::spec_new(OpCode::Shutdown)
            }),
    {
        let mut entry = new_op(OpCode::Shutdown);
        socket(&mut entry, fd, 0, how, 0, 0, 0);
        entry
    }

    /// A poll of `fd` for the events of `mask`.
    pub fn poll(fd: i32, mask: u32) -> (entry: SubmissionEntry)
        ensures
            entry == (SubmissionEntry {
                fd,
                rw_flags: mask,
                ..SubmissionEntry::spec_new(OpCode::PollAdd)
            }),
    {
        let mut entry = new_op(OpCode::PollAdd);
        rw_fixed(&mut entry, fd, 0, 0, 0, swap_poll_mask(mask), 0);
        entry
    }

    /// An update of a poll to the events of `mask`.
    pub fn poll_update(mask: u32, flags: u32) -> (entry: SubmissionEntry)
        ensures
            entry == (SubmissionEntry {
                len: flags,
                rw_flags: mask,
                ..SubmissionEntry::spec_new(OpCode::PollRemove)
            }),
    {
        let mut entry = new_op(OpCode::PollRemove);
        entry.len = flags;
        entry.off = 0;
        entry.rw_flags = swap_poll_mask(mask);
        entry.buf = 0;
        entry.file = 0;
        entry
    }

    /// `epoll_ctl` on the epoll descriptor `ep`: apply `op` to `fd` with the
    /// event at the address `event`.
    pub fn epoll_ctl(ep: i32, op: u32, fd: i32, event: u64) -> (entry: SubmissionEntry)
        ensures
            entry == (SubmissionEntry {
                fd: ep,
                addr: event,
                len: op,
                off: fd as u64,
                ..SubmissionEntry::spec_new(OpCode::EPollCtl)
            }),
    {
        let mut entry = new_op(OpCode::EPollCtl);
        entry.buf = 0;
        entry.file = 0;
        entry.fd = ep;
        entry.addr = event;
        entry.len = op;
        entry.off = #[verifier::truncate] (fd as u64);
        entry
    }

    /// The removal of a poll.
    pub fn poll_cancel() -> (entry: SubmissionEntry)
        ensures
            entry == SubmissionEntry::spec_new(OpCode::PollRemove),
    {
        let mut entry = new_op(OpCode::PollRemove);
        entry.len = 0;
        entry.off = 0;
        entry.rw_flags = 0;
        entry.buf = 0;
        entry.file = 0;
        entry
    }

    /// A cancellation; the engine writes the address of the request to cancel
    /// into `addr`.
    pub fn cancel(flags: u32) -> (entry: SubmissionEntry)
        ensures
            entry == (SubmissionEntry {
                rw_flags: flags,
                ..SubmissionEntry::spec_new(OpCode::AsyncCancel)
            }),
    {
        let mut entry = new_op(OpCode::AsyncCancel);
        entry.len = 0;
        entry.off = 0;
        entry.rw_flags = flags;
        entry.file = 0;
        entry
    }

    /// The cancellation of the operations on the descriptor `fd`.
    pub fn cancel_fd(fd: i32, flags: u32) -> (entry: SubmissionEntry)
        ensures
            entry == (SubmissionEntry {
                fd,
                rw_flags: flags | ASYNC_CANCEL_FD,
                ..SubmissionEntry::spec_new(OpCode::AsyncCancel)
            }),
    {
        let mut entry = new_op(OpCode::AsyncCancel);
        rw(&mut entry, fd, 0, 0, 0, flags | ASYNC_CANCEL_FD);
        entry.file = 0;
        entry
    }

    /// The cancellation of the operations on the registered file
    /// `file_index`.
    pub fn cancel_fixed(file_index: u32, flags: u32) -> (entry: SubmissionEntry)
        ensures
            entry == (SubmissionEntry {
                fd: file_index as i32,
                rw_flags: (flags | ASYNC_CANCEL_FD_FIXED) | ASYNC_CANCEL_FD,
                ..SubmissionEntry::spec_new(OpCode::AsyncCancel)
            }),
    {
        Self::cancel_fd(#[verifier::truncate] (file_index as i32), flags | ASYNC_CANCEL_FD_FIXED)
    }

    /// The cancellation of every operation in flight.
    pub fn cancel_all() -> (entry: SubmissionEntry)
        ensures
            entry == (SubmissionEntry {
                rw_flags: ASYNC_CANCEL_ANY,
                ..SubmissionEntry::spec_new(OpCode::AsyncCancel)
            }),
    {
        let mut entry = new_op(OpCode::AsyncCancel);
        rw(&mut entry, 0, 0, 0, 0, ASYNC_CANCEL_ANY);
        entry.file = 0;
        entry
    }

    /// An update of `len` registered files from `off` on, with the
    /// descriptors at the address `fds`.
    pub fn files_update(fds: u64, len: u32, off: u32) -> (entry: SubmissionEntry)
        ensures
            entry == (SubmissionEntry {
                addr: fds,
                len,
                off: off as u64,
                ..SubmissionEntry::spec_new(OpCode::FilesUpdate)
            }),
    {
        let mut entry = new_op(OpCode::FilesUpdate);
        entry.addr = fds;
        entry.len = len;
        entry.off = off as u64;
        entry.rw_flags = 0;
        entry.file = 0;
        entry
    }

    /// Hands `count` buffers of `len` bytes each, from the address `addr`
    /// on, to the group `bgid`, numbered from `bid`.
    pub fn provide_buffers(
        addr: u64,
        len: u32,
        count: u16,
        bgid: u16,
        bid: u16,
    ) -> (entry: SubmissionEntry)
        ensures
            entry == (SubmissionEntry {
                fd: count as i32,
                addr,
                len,
                off: bid as u64,
                buf: bgid,
                ..SubmissionEntry::spec_new(OpCode::ProvideBuffers)
            }),
    {
        let mut entry = new_op(OpCode::ProvideBuffers);
        buffer(&mut entry, addr, len, count, bgid, bid);
        entry
    }

    /// Takes `count` buffers back from the group `bgid`.
    pub fn remove_buffers(count: u16, bgid: u16) -> (entry: SubmissionEntry)
        ensures
            entry == (SubmissionEntry {
                fd: count as i32,
                buf: bgid,
                ..SubmissionEntry::spec_new(OpCode::RemoveBuffers)
            }),
    {
        let mut entry = new_op(OpCode::RemoveBuffers);
        buffer(&mut entry, 0, 0, count, bgid, 0);
        entry
    }
}

} // verus!
