use xx_pulse::engine::uring::op::{
    Op, OpCode, SubmissionEntry, ASYNC_CANCEL_ANY, ASYNC_CANCEL_FD, ASYNC_CANCEL_FD_FIXED,
    OPEN_HOW_SIZE,
};

fn entry(op: OpCode) -> SubmissionEntry {
    SubmissionEntry {
        op,
        flags: 0,
        ioprio: 0,
        fd: 0,
        off: 0,
        addr: 0,
        len: 0,
        rw_flags: 0,
        user_data: 0,
        buf: 0,
        personality: 0,
        file: 0,
        addr3: 0,
        pad: 0,
    }
}

#[test]
fn nop_is_empty() {
    assert_eq!(Op::nop(), entry(OpCode::NoOp));
    assert_eq!(Op::poll_cancel(), entry(OpCode::PollRemove));
}

#[test]
fn open_entries() {
    assert_eq!(
        Op::openat(-100, 0x10, 0o1102, 0o644, 3),
        SubmissionEntry {
            fd: -100,
            addr: 0x10,
            len: 0o644,
            rw_flags: 0o1102,
            file: 3,
            ..entry(OpCode::OpenAt)
        }
    );
    assert_eq!(
        Op::openat2(-100, 0x10, 0x20, 3),
        SubmissionEntry { fd: -100, addr: 0x10, len: 24, off: 0x20, file: 3, ..entry(OpCode::OpenAt2) }
    );
    assert_eq!(OPEN_HOW_SIZE, 24);
}

#[test]
fn close_entries() {
    assert_eq!(Op::close(7), SubmissionEntry { fd: 7, ..entry(OpCode::Close) });
    assert_eq!(Op::close_direct(9), SubmissionEntry { file: 9, ..entry(OpCode::Close) });
}

#[test]
fn read_and_write_entries() {
    let read = SubmissionEntry {
        fd: 3,
        addr: 0x1000,
        len: 512,
        off: 4096,
        rw_flags: 2,
        ..entry(OpCode::Read)
    };
    assert_eq!(Op::read(3, 0x1000, 512, 4096, 2), read);
    assert_eq!(Op::write(3, 0x1000, 512, 4096, 2), SubmissionEntry { op: OpCode::Write, ..read });
    assert_eq!(Op::readv(3, 0x1000, 512, 4096, 2), SubmissionEntry { op: OpCode::ReadVector, ..read });
    assert_eq!(
        Op::writev(3, 0x1000, 512, 4096, 2),
        SubmissionEntry { op: OpCode::WriteVector, ..read }
    );
    assert_eq!(
        Op::read_fixed(3, 0x1000, 512, 4096, 6, 2),
        SubmissionEntry { op: OpCode::ReadFixed, buf: 6, ..read }
    );
    assert_eq!(
        Op::write_fixed(3, 0x1000, 512, 4096, 6, 2),
        SubmissionEntry { op: OpCode::WriteFixed, buf: 6, ..read }
    );
    // an offset of -1 means the file's own position: all bits set
    assert_eq!(Op::read(3, 0, 0, -1, 0).off, u64::MAX);
}

#[test]
fn sync_entries() {
    assert_eq!(Op::fsync(3, 1), SubmissionEntry { fd: 3, rw_flags: 1, ..entry(OpCode::FileSync) });
    assert_eq!(
        Op::sync_file_range(3, 100, 50, 2),
        SubmissionEntry { fd: 3, len: 100, off: 50, rw_flags: 2, ..entry(OpCode::SyncFileRange) }
    );
    assert_eq!(
        Op::fallocate(3, 1, 64, 128),
        SubmissionEntry { fd: 3, addr: 128, len: 1, off: 64, ..entry(OpCode::FileAllocate) }
    );
    assert_eq!(
        Op::fadvise(3, 64, 128, 4),
        SubmissionEntry { fd: 3, off: 64, len: 128, rw_flags: 4, ..entry(OpCode::FileAdvise) }
    );
    assert_eq!(
        Op::madvise(0x5000, 128, 4),
        SubmissionEntry { addr: 0x5000, len: 128, rw_flags: 4, ..entry(OpCode::MemoryAdvise) }
    );
}

#[test]
fn timeout_entry() {
    assert_eq!(
        Op::timeout(0x7000, 1, 0),
        SubmissionEntry { addr: 0x7000, len: 1, off: 1, ..entry(OpCode::Timeout) }
    );
    assert_eq!(Op::timeout(0x7000, 5, 1).off, 5);
    assert_eq!(Op::timeout(0x7000, 5, 1).rw_flags, 1);
}

#[test]
fn path_entries() {
    assert_eq!(
        Op::renameat(4, 0x10, 5, 0x20, 1),
        SubmissionEntry { fd: 4, addr: 0x10, len: 5, off: 0x20, rw_flags: 1, ..entry(OpCode::RenameAt) }
    );
    assert_eq!(Op::renameat(4, 0x10, -100, 0x20, 1).len, (-100i32) as u32);
    assert_eq!(
        Op::linkat(4, 0x10, 5, 0x20, 1),
        SubmissionEntry { fd: 4, addr: 0x10, len: 5, off: 0x20, rw_flags: 1, ..entry(OpCode::LinkAt) }
    );
    assert_eq!(
        Op::unlinkat(4, 0x10, 0x200),
        SubmissionEntry { fd: 4, addr: 0x10, rw_flags: 0x200, ..entry(OpCode::UnlinkAt) }
    );
    assert_eq!(
        Op::mkdirat(4, 0x10, 0o755),
        SubmissionEntry { fd: 4, addr: 0x10, len: 0o755, ..entry(OpCode::MkdirAt) }
    );
    assert_eq!(
        Op::symlinkat(0x10, 4, 0x20),
        SubmissionEntry { fd: 4, addr: 0x10, off: 0x20, ..entry(OpCode::SymlinkAt) }
    );
    assert_eq!(
        Op::statx(4, 0x10, 0x1000, 0x7ff, 0x30),
        SubmissionEntry {
            fd: 4,
            addr: 0x10,
            len: 0x7ff,
            off: 0x30,
            rw_flags: 0x1000,
            ..entry(OpCode::Statx)
        }
    );
}

#[test]
fn xattr_entries() {
    let get = SubmissionEntry { fd: 4, addr: 0x10, len: 64, off: 0x20, ..entry(OpCode::FileGetXAttr) };
    assert_eq!(Op::fgetxattr(4, 0x10, 0x20, 64), get);
    assert_eq!(
        Op::fsetxattr(4, 0x10, 0x20, 64, 1),
        SubmissionEntry { op: OpCode::FileSetXAttr, rw_flags: 1, ..get }
    );
    let path = SubmissionEntry { addr3: 0x5, addr: 0x10, len: 64, off: 0x20, ..entry(OpCode::GetXAttr) };
    assert_eq!(Op::getxattr(0x5, 0x10, 0x20, 64), path);
    assert_eq!(
        Op::setxattr(0x5, 0x10, 0x20, 64, 2),
        SubmissionEntry { op: OpCode::SetXAttr, rw_flags: 2, ..path }
    );
}

#[test]
fn splice_entries() {
    assert_eq!(
        Op::splice(3, 10, 4, 20, 30, 1),
        SubmissionEntry { file: 3, addr: 10, fd: 4, off: 20, len: 30, rw_flags: 1, ..entry(OpCode::Splice) }
    );
    assert_eq!(Op::splice(3, -1, 4, -1, 30, 1).addr, u64::MAX);
    assert_eq!(
        Op::tee(3, 4, 30, 1),
        SubmissionEntry { file: 3, fd: 4, len: 30, rw_flags: 1, ..entry(OpCode::Tee) }
    );
}

#[test]
fn socket_entries() {
    assert_eq!(
        Op::socket(2, 1, 6, 0, 0),
        SubmissionEntry { fd: 2, len: 6, off: 1, ..entry(OpCode::Socket) }
    );
    assert_eq!(
        Op::connect(5, 0x10, 16),
        SubmissionEntry { fd: 5, addr: 0x10, off: 16, ..entry(OpCode::Connect) }
    );
    assert_eq!(
        Op::accept(5, 0x10, 0x20, 0x800, 1),
        SubmissionEntry { fd: 5, addr: 0x10, off: 0x20, rw_flags: 0x800, file: 1, ..entry(OpCode::Accept) }
    );
    let recv = SubmissionEntry { fd: 5, addr: 0x10, len: 100, rw_flags: 0x40, ..entry(OpCode::Recv) };
    assert_eq!(Op::recv(5, 0x10, 100, 0x40), recv);
    assert_eq!(Op::send(5, 0x10, 100, 0x40), SubmissionEntry { op: OpCode::Send, ..recv });
    assert_eq!(
        Op::recvmsg(5, 0x10, 0x40),
        SubmissionEntry { op: OpCode::RecvMsg, len: 1, ..recv }
    );
    assert_eq!(
        Op::sendmsg(5, 0x10, 0x40),
        SubmissionEntry { op: OpCode::SendMsg, len: 1, ..recv }
    );
    assert_eq!(Op::shutdown(5, 2), SubmissionEntry { fd: 5, len: 2, ..entry(OpCode::Shutdown) });
}

#[test]
fn zero_copy_entries() {
    assert_eq!(
        Op::sendto_zc(5, 0x10, 100, 0x40, 0x20, 16, 3),
        SubmissionEntry {
            fd: 5,
            addr: 0x10,
            len: 100,
            off: 0x20,
            file: 16,
            rw_flags: 0x40,
            buf: 3,
            ..entry(OpCode::SendZeroCopy)
        }
    );
    assert_eq!(Op::send_zc(5, 0x10, 100, 0x40, 3), Op::sendto_zc(5, 0x10, 100, 0x40, 0, 0, 3));
}

#[test]
fn poll_entries() {
    assert_eq!(Op::poll(5, 0x5), SubmissionEntry { fd: 5, rw_flags: 0x5, ..entry(OpCode::PollAdd) });
    assert_eq!(
        Op::poll_update(0x5, 2),
        SubmissionEntry { len: 2, rw_flags: 0x5, ..entry(OpCode::PollRemove) }
    );
    assert_eq!(
        Op::epoll_ctl(8, 1, 5, 0x10),
        SubmissionEntry { fd: 8, addr: 0x10, len: 1, off: 5, ..entry(OpCode::EPollCtl) }
    );
}

#[test]
fn cancel_entries() {
    assert_eq!(Op::cancel(0), entry(OpCode::AsyncCancel));
    assert_eq!(Op::cancel(1), SubmissionEntry { rw_flags: 1, ..entry(OpCode::AsyncCancel) });
    assert_eq!(
        Op::cancel_fd(5, 1),
        SubmissionEntry { fd: 5, rw_flags: 1 | ASYNC_CANCEL_FD, ..entry(OpCode::AsyncCancel) }
    );
    assert_eq!(
        Op::cancel_fixed(5, 0),
        SubmissionEntry {
            fd: 5,
            rw_flags: ASYNC_CANCEL_FD | ASYNC_CANCEL_FD_FIXED,
            ..entry(OpCode::AsyncCancel)
        }
    );
    assert_eq!(
        Op::cancel_all(),
        SubmissionEntry { rw_flags: ASYNC_CANCEL_ANY, ..entry(OpCode::AsyncCancel) }
    );
    assert_eq!((ASYNC_CANCEL_FD, ASYNC_CANCEL_ANY, ASYNC_CANCEL_FD_FIXED), (2, 4, 8));
}

#[test]
fn buffer_entries() {
    assert_eq!(
        Op::files_update(0x10, 4, 2),
        SubmissionEntry { addr: 0x10, len: 4, off: 2, ..entry(OpCode::FilesUpdate) }
    );
    assert_eq!(
        Op::provide_buffers(0x10, 4096, 8, 2, 1),
        SubmissionEntry { fd: 8, addr: 0x10, len: 4096, off: 1, buf: 2, ..entry(OpCode::ProvideBuffers) }
    );
    assert_eq!(
        Op::remove_buffers(8, 2),
        SubmissionEntry { fd: 8, buf: 2, ..entry(OpCode::RemoveBuffers) }
    );
}
