use xx_pulse::async_runtime::Context;
use xx_pulse::driver::{Cancel, Driver};
use xx_pulse::engine::uring::dispatch::{Started, SyncCall};
use xx_pulse::engine::uring::engine::{IoUring, Pushed, POLL_IN};
use xx_pulse::engine::uring::params::{IoRingFeatures, Parameters};
use xx_pulse::engine::Engine;
use xx_pulse::error::{Error, OsError, EAGAIN, EINTR, ENOTDIR};
use xx_pulse::fs::file::{File, SeekFrom};
use xx_pulse::fs::{FileKind, FileType, Metadata, Statx, STATX_SIZE};
use xx_pulse::fs::readdir::{check_directory, is_dot, retry_read};
use xx_pulse::net::socket::{foreach_addr, no_addresses, Budgeted, Shutdown, Socket, POLL_OUT};
use xx_pulse::ops::blocking::run_blocking;
use xx_pulse::ops::io::{check_start, finish, started, statx_fd_flags, IoStart};

fn driver() -> Driver {
    let mut params = Parameters::zeroed();
    params.sq_entries = 8;
    params.cq_entries = 16;
    let features = IoRingFeatures { ops: u64::MAX, setup_flags: u32::MAX, features: u32::MAX };
    Driver::new(Engine::new(IoUring::new(features, &params, 3, 0x1000, 0x2000)))
}

#[test]
fn operations_check_for_interrupts_and_shutdown() {
    let mut driver = driver();
    let mut context = Context::new();
    assert_eq!(check_start(&context, &driver, false), Ok(()));
    driver.exit();
    assert_eq!(check_start(&context, &driver, false), Err(Error::Shutdown));
    context.interrupt().unwrap();
    assert_eq!(check_start(&context, &driver, false), Err(Error::Interrupted));
    // close is never refused
    assert_eq!(check_start(&context, &driver, true), Ok(()));
    assert_eq!(xx_pulse::ops::blocking::check_start(&context), Err(Error::Interrupted));
    assert_eq!(xx_pulse::ops::blocking::check_start(&Context::new()), Ok(()));
}

#[test]
fn a_started_operation_leaves_its_cancel_token() {
    let mut context = Context::new();
    assert_eq!(started(&mut context, Started::Async(Pushed::Queued(3)), 0x99), IoStart::Suspend);
    assert_eq!(context.cancel, Some(Cancel::Operation(0x99)));

    let mut context = Context::new();
    assert_eq!(started(&mut context, Started::Async(Pushed::Flush(7)), 0x99), IoStart::Suspend);
    assert_eq!(context.cancel, Some(Cancel::Operation(0x99)));

    let mut context = Context::new();
    assert_eq!(started(&mut context, Started::Async(Pushed::Full), 0x99), IoStart::Flush);
    assert_eq!(context.cancel, None);
    let call = SyncCall::Listen { socket: 1, backlog: 2 };
    assert_eq!(started(&mut context, Started::Sync(call), 0x99), IoStart::Call(call));
    assert_eq!(context.cancel, None);
}

#[test]
fn os_errors_are_passed_on_untouched() {
    assert_eq!(finish(Ok::<usize, OsError>(5)), Ok(5));
    assert_eq!(finish(Err::<usize, _>(OsError { code: 104 })), Err(Error::Os(OsError { code: 104 })));
    assert_eq!(statx_fd_flags(0x100), 0x1100);
}

#[test]
fn blocking_work_that_did_not_run_was_interrupted() {
    assert_eq!(run_blocking(Some(vec![1, 2])), Ok(vec![1, 2]));
    assert_eq!(run_blocking::<u8>(None), Err(Error::Interrupted));
}

#[test]
fn a_ready_socket_with_budget_is_tried_directly() {
    let mut socket = Socket::new(5);
    assert_eq!(socket.fd(), 5);
    let mut context = Context::new();
    // not known to be ready: through the ring
    assert_eq!(socket.with_budget(&context, POLL_IN, true), Ok(Budgeted::Suspend));
    socket.suspend_done(POLL_IN, false);
    assert_eq!(socket.ready, 0);
    socket.suspend_done(POLL_IN, true);
    assert_eq!(socket.ready, POLL_IN);
    // ready and with budget: directly
    assert_eq!(socket.with_budget(&context, POLL_IN, true), Ok(Budgeted::Sync));
    // out of budget: through the ring, to yield
    assert_eq!(socket.with_budget(&context, POLL_IN, false), Ok(Budgeted::Suspend));
    // ready for reading only
    assert_eq!(socket.with_budget(&context, POLL_OUT, true), Ok(Budgeted::Suspend));
    context.interrupt().unwrap();
    assert_eq!(socket.with_budget(&context, POLL_IN, true), Err(Error::Interrupted));
    assert_eq!(socket.with_budget(&context, POLL_OUT, true), Ok(Budgeted::Suspend));
}

#[test]
fn a_direct_call_that_would_block_clears_the_readiness() {
    let mut socket = Socket { fd: 5, ready: POLL_IN | POLL_OUT };
    assert_eq!(socket.sync_done(POLL_IN, Ok(12usize)), Some(Ok(12)));
    assert_eq!(socket.ready, POLL_IN | POLL_OUT);
    let reset = OsError { code: 104 };
    assert_eq!(socket.sync_done::<usize>(POLL_IN, Err(reset)), Some(Err(Error::Os(reset))));
    assert_eq!(socket.ready, POLL_IN | POLL_OUT);
    assert_eq!(socket.sync_done::<usize>(POLL_IN, Err(OsError { code: EAGAIN })), None);
    assert_eq!(socket.ready, POLL_OUT);
    assert_eq!(Socket::sync_flags(0x2), 0x4042);
}

#[test]
fn polls_and_shutdowns_update_the_readiness() {
    let mut socket = Socket { fd: 5, ready: POLL_IN | POLL_OUT };
    socket.poll(POLL_IN);
    assert_eq!(socket.ready, POLL_OUT);
    socket.polled(POLL_IN | 0x10);
    assert_eq!(socket.ready, POLL_IN | POLL_OUT | 0x10);
    let mut socket = Socket::new(1);
    socket.shutdown(Shutdown::Read);
    assert_eq!(socket.ready, POLL_IN);
    socket.shutdown(Shutdown::Write);
    assert_eq!(socket.ready, POLL_IN | POLL_OUT);
    let mut socket = Socket::new(1);
    socket.shutdown(Shutdown::Both);
    assert_eq!(socket.ready, POLL_IN | POLL_OUT);
}

#[test]
fn addresses_are_tried_until_one_works() {
    let none = Error::NotFound;
    let refused = Error::Os(OsError { code: 111 });
    let unreachable = Error::Os(OsError { code: 101 });

    // no address at all
    assert_eq!(no_addresses(None, none), Error::NotFound);

    // the second address works
    let mut error = None;
    assert_eq!(foreach_addr::<u8>(&mut error, Err(refused)), None);
    assert_eq!(error, Some(refused));
    assert_eq!(foreach_addr(&mut error, Ok(2)), Some(2));
    assert_eq!(error, Some(refused));

    // none works: the last error counts
    let mut error = None;
    assert_eq!(foreach_addr::<u8>(&mut error, Err(refused)), None);
    assert_eq!(foreach_addr::<u8>(&mut error, Err(unreachable)), None);
    assert_eq!(no_addresses(error, none), unreachable);
}

#[test]
fn a_file_keeps_its_position() {
    let mut file = File::new(4);
    let context = Context::new();
    assert_eq!(file.pos(), 0);
    assert_eq!(file.io_offset(), Ok(0));
    assert_eq!(file.advance(&context, 100), Ok(100));
    assert_eq!(file.advance(&context, 0), Ok(0));
    assert_eq!(file.pos(), 100);
    assert_eq!(file.io_offset(), Ok(100));
    file.offset = u64::MAX - 1;
    assert_eq!(file.io_offset(), Err(Error::Overflow));
    assert_eq!(file.advance(&context, 2), Err(Error::Overflow));
    assert_eq!(file.advance(&context, 1), Ok(1));
    assert_eq!(file.pos(), u64::MAX);
}

#[test]
fn an_empty_read_of_an_interrupted_worker_is_an_interrupt() {
    let mut file = File::new(4);
    let mut context = Context::new();
    context.interrupt().unwrap();
    assert_eq!(file.advance(&context, 0), Err(Error::Interrupted));
    assert_eq!(file.advance(&context, 9), Ok(9));
    assert_eq!(file.pos(), 9);
}

#[test]
fn seeking() {
    let mut file = File::new(4);
    assert_eq!(file.seek(SeekFrom::Start(10), 100), Ok(10));
    assert_eq!(file.seek(SeekFrom::Current(-4), 100), Ok(6));
    assert_eq!(file.seek(SeekFrom::Current(5), 100), Ok(11));
    assert_eq!(file.seek(SeekFrom::End(-1), 100), Ok(99));
    assert_eq!(file.seek(SeekFrom::End(20), 100), Ok(120));
    assert_eq!(file.pos(), 120);
    assert_eq!(file.seek(SeekFrom::Current(-121), 100), Err(Error::Overflow));
    assert_eq!(file.seek(SeekFrom::End(-101), 100), Err(Error::Overflow));
    assert_eq!(file.seek(SeekFrom::End(1), u64::MAX), Err(Error::Overflow));
    assert_eq!(file.pos(), 120);
}

#[test]
fn directory_listings_leave_out_the_dot_entries() {
    assert!(is_dot(b"."));
    assert!(is_dot(b".."));
    assert!(!is_dot(b""));
    assert!(!is_dot(b"..."));
    assert!(!is_dot(b".a"));
    assert!(!is_dot(b"a."));
    assert!(!is_dot(b"a"));
    let directory = Statx { mask: 0x1, mode: 0o040755, size: 4096, block_size: 4096 };
    let regular = Statx { mask: 0x1, mode: 0o100644, size: 12, block_size: 4096 };
    assert_eq!(check_directory(&directory), Ok(()));
    assert_eq!(check_directory(&regular), Err(Error::Os(OsError { code: ENOTDIR })));
}

#[test]
fn file_types_are_read_from_the_mode() {
    let statx = |mode: u16| Statx { mask: 0, mode, size: 0, block_size: 0 };
    assert_eq!(statx(0o010644).file_type(), Some(FileKind::Fifo));
    assert_eq!(statx(0o020644).file_type(), Some(FileKind::Character));
    assert_eq!(statx(0o040755).file_type(), Some(FileKind::Directory));
    assert_eq!(statx(0o060644).file_type(), Some(FileKind::Block));
    assert_eq!(statx(0o100644).file_type(), Some(FileKind::Regular));
    assert_eq!(statx(0o120777).file_type(), Some(FileKind::Link));
    assert_eq!(statx(0o140644).file_type(), Some(FileKind::Socket));
    assert_eq!(statx(0o000644).file_type(), None);
    assert_eq!(statx(0o170644).file_type(), None);

    let metadata = Metadata(statx(0o040755));
    assert!(metadata.file_type().is_dir());
    assert!(!metadata.file_type().is_file());
    assert!(FileType(FileKind::Regular).is_file());
    assert!(FileType(FileKind::Link).is_symlink());
    assert!(!FileType(FileKind::Link).is_dir());
}

#[test]
fn the_length_needs_the_size_to_be_filled_in() {
    let metadata = Metadata(Statx { mask: STATX_SIZE | 0x1, mode: 0o100644, size: 77, block_size: 512 });
    assert_eq!(metadata.len(), 77);
    assert_eq!(metadata.stream_len(), Some(77));
    let metadata = Metadata(Statx { mask: 0x1, mode: 0o100644, size: 77, block_size: 512 });
    assert_eq!(metadata.stream_len(), None);
}

#[test]
fn interrupted_directory_reads_are_retried() {
    let interrupted = Err(OsError { code: EINTR });
    assert!(retry_read(interrupted, false));
    assert!(!retry_read(interrupted, true));
    assert!(!retry_read(Ok(()), false));
    assert!(!retry_read(Err(OsError { code: EAGAIN }), false));
}
