use xx_pulse::engine::uring::dispatch::{clamp_len, Started, SyncCall, AT_FDCWD};
use xx_pulse::engine::uring::engine::{
    enter_step, CompatStep, Delivery, EnterStep, IoUring, Pushed, TimeSpec, WaitPlan, WakeEvent,
    COMPAT_TIMEOUT_CAP, POLL_ERR, POLL_IN,
};
use xx_pulse::engine::uring::op::{Op, OpCode, SubmissionEntry};
use xx_pulse::engine::uring::params::{
    IoRingFeatures, Parameters, ENTER_GETEVENTS, FEATURE_EXT_ARG, SETUP_SUBMIT_ALL,
    SQ_CQ_OVERFLOW, SQ_TASKRUN,
};
use xx_pulse::engine::uring::queue::{is_ring_size, CompletionEntry, Queue, SubmissionQueue};
use xx_pulse::engine::uring::wake::{WakeQueue, MAX_RESUME};
use xx_pulse::engine::{syscall_result, Engine, OperationKind, SyncEngine};
use xx_pulse::error::{Error, OsError, EAGAIN, EBUSY, EINTR, ENOMEM, ETIME};

const NO_OP: u64 = 0xdead_0000;
const EVENT_REQUEST: u64 = 0xbeef_0000;
const EVENT_FD: i32 = 9;

fn params(sq: u32, cq: u32) -> Parameters {
    let mut params = Parameters::zeroed();
    params.sq_entries = sq;
    params.cq_entries = cq;
    params
}

fn all_features() -> IoRingFeatures {
    IoRingFeatures { ops: u64::MAX, setup_flags: u32::MAX, features: u32::MAX }
}

fn engine(sq: u32) -> IoUring {
    IoUring::new(all_features(), &params(sq, 2 * sq), EVENT_FD, EVENT_REQUEST, NO_OP)
}

fn pending(engine: &IoUring) -> Vec<SubmissionEntry> {
    let sq = &engine.queue.submission;
    let first = sq.tail.wrapping_sub(engine.to_submit);
    (0..engine.to_submit)
        .map(|k| sq.entries[(first.wrapping_add(k) & sq.mask) as usize])
        .collect()
}

#[test]
fn ring_sizes_are_powers_of_two() {
    assert!(is_ring_size(1));
    assert!(is_ring_size(256));
    assert!(is_ring_size(0x8000_0000));
    assert!(!is_ring_size(0));
    assert!(!is_ring_size(3));
    assert!(!is_ring_size(257));
}

#[test]
fn a_new_submission_queue_maps_every_slot_to_itself() {
    let sq = SubmissionQueue::new(&params(8, 8));
    assert_eq!(sq.capacity, 8);
    assert_eq!(sq.mask, 7);
    assert_eq!(sq.tail, 0);
    assert_eq!(sq.array, vec![0, 1, 2, 3, 4, 5, 6, 7]);
    assert_eq!(sq.entries.len(), 8);
    assert!(sq.entries.iter().all(|entry| *entry == Op::nop()));
    let queue = Queue::new(&params(8, 32));
    assert_eq!(queue.completion.mask, 31);
    assert_eq!(queue.completion.khead, 0);
}

#[test]
fn the_submission_tail_wraps() {
    let mut sq = SubmissionQueue::new(&params(4, 4));
    sq.tail = u32::MAX;
    assert_eq!(sq.push(Op::close(1)), 3);
    assert_eq!(sq.tail, 0);
    assert_eq!(sq.push(Op::close(2)), 0);
    assert_eq!(sq.entries[3], Op::close(1));
    assert_eq!(sq.entries[0], Op::close(2));
    assert_eq!(sq.ktail, 0);
    assert_eq!(sq.sync(), 1);
    assert_eq!(sq.ktail, 1);
}

#[test]
fn start_async_writes_the_request_address() {
    let mut engine = engine(4);
    assert!(!engine.has_work());
    let pushed = engine.start_async(Op::fsync(5, 0), 0x1234);
    assert_eq!(pushed, Pushed::Queued(0));
    assert_eq!(engine.to_submit, 1);
    assert!(engine.has_work());
    let mut expected = Op::fsync(5, 0);
    expected.user_data = 0x1234;
    assert_eq!(pending(&engine), vec![expected]);
}

#[test]
fn filling_the_ring_asks_for_a_flush() {
    let mut engine = engine(256);
    for i in 0..255u64 {
        let started = engine.read(3, 0x1000 + i, 16, 0, 0x9000 + i);
        assert_eq!(started, Started::Async(Pushed::Queued(i as u32)));
    }
    // the 256th read fills the ring
    assert_eq!(engine.read(3, 0x2000, 16, 0, 0xa000), Started::Async(Pushed::Flush(255)));
    assert_eq!(engine.to_submit, 256);
    let waiting = pending(&engine);
    assert_eq!(waiting.len(), 256);
    for (i, entry) in waiting.iter().enumerate().take(255) {
        assert_eq!(entry.user_data, 0x9000 + i as u64);
        assert_eq!(entry.addr, 0x1000 + i as u64);
    }
    assert_eq!(waiting[255].user_data, 0xa000);

    // a 257th read before the flush is refused and overwrites nothing
    assert_eq!(engine.read(3, 0x3000, 16, 0, 0xb000), Started::Async(Pushed::Full));
    assert_eq!(pending(&engine), waiting);

    // the flush hands all 256 to the kernel, then the 257th goes in
    assert_eq!(engine.begin_enter(), 256);
    assert_eq!(engine.queue.submission.ktail, 256);
    assert_eq!(engine.enter(256, Ok(256)), EnterStep::Done(Ok(())));
    assert_eq!(engine.to_submit, 0);
    assert_eq!(engine.to_complete, 256);
    assert_eq!(engine.read(3, 0x3000, 16, 0, 0xb000), Started::Async(Pushed::Queued(0)));
    assert_eq!(engine.begin_enter(), 1);
    assert_eq!(engine.to_complete, 257);

    // all 257 complete
    assert_eq!(engine.run_events(0, 200).len(), 200);
    assert_eq!(engine.run_events(200, 257).len(), 57);
    assert_eq!(engine.to_complete, 0);
    assert!(!engine.has_work());
}

#[test]
fn pending_entries_survive_a_wrapping_tail() {
    let mut engine = engine(4);
    engine.queue.submission.tail = u32::MAX - 1;
    engine.queue.submission.ktail = u32::MAX - 1;
    assert_eq!(engine.close(10, 1), Started::Async(Pushed::Queued(2)));
    assert_eq!(engine.close(11, 2), Started::Async(Pushed::Queued(3)));
    assert_eq!(engine.close(12, 3), Started::Async(Pushed::Queued(0)));
    assert_eq!(engine.close(13, 4), Started::Async(Pushed::Flush(1)));
    let fds: Vec<i32> = pending(&engine).iter().map(|entry| entry.fd).collect();
    assert_eq!(fds, vec![10, 11, 12, 13]);
}

#[test]
fn partial_submits_are_retried_without_submit_all() {
    assert_eq!(enter_step(10, Ok(4), false), EnterStep::Retry(6));
    assert_eq!(enter_step(6, Ok(0), false), EnterStep::Retry(6));
    assert_eq!(enter_step(6, Ok(5), false), EnterStep::Retry(1));
    assert_eq!(enter_step(1, Ok(1), false), EnterStep::Done(Ok(())));
    assert_eq!(enter_step(0, Ok(0), false), EnterStep::Done(Ok(())));
    assert_eq!(enter_step(3, Ok(7), false), EnterStep::Done(Ok(())));
}

#[test]
fn partial_submits_fail_with_submit_all() {
    assert_eq!(enter_step(10, Ok(4), true), EnterStep::Done(Err(Error::OutOfMemory)));
    assert_eq!(enter_step(10, Ok(10), true), EnterStep::Done(Ok(())));
    let engine = engine(4);
    assert_eq!(engine.enter(2, Ok(1)), EnterStep::Done(Err(Error::OutOfMemory)));
    let mut old = engine;
    old.features.setup_flags &= !SETUP_SUBMIT_ALL;
    assert_eq!(old.enter(2, Ok(1)), EnterStep::Retry(1));
}

#[test]
fn enter_errors_are_classified() {
    for code in [ETIME, EINTR, EBUSY] {
        let err = OsError { code };
        assert_eq!(enter_step(0, Err(err), false), EnterStep::Done(Ok(())));
        assert_eq!(enter_step(0, Err(err), true), enter_step(0, Ok(0), true));
        assert_eq!(enter_step(1, Err(err), false), EnterStep::Done(Err(Error::Os(err))));
    }
    let again = OsError { code: EAGAIN };
    assert_eq!(enter_step(0, Err(again), false), EnterStep::Done(Err(Error::OutOfMemory)));
    assert_eq!(enter_step(5, Err(again), true), EnterStep::Done(Err(Error::OutOfMemory)));
    let nomem = OsError { code: ENOMEM };
    assert_eq!(enter_step(0, Err(nomem), false), EnterStep::Done(Err(Error::Os(nomem))));
}

#[test]
fn flush_fetches_events_only_after_an_overflow() {
    assert_eq!(IoUring::flush(0), 0);
    assert_eq!(IoUring::flush(SQ_TASKRUN), 0);
    assert_eq!(IoUring::flush(SQ_CQ_OVERFLOW), ENTER_GETEVENTS);
    assert!(Queue::needs_enter(SQ_TASKRUN));
    assert!(Queue::needs_enter(SQ_CQ_OVERFLOW));
    assert!(!Queue::needs_enter(1));
    assert!(!Queue::needs_flush(SQ_TASKRUN));
}

#[test]
fn waiting_is_planned() {
    let mut engine = engine(4);
    // nothing to submit, nothing to wait for
    assert_eq!(engine.submit_and_wait(0, 5, 5, 0), WaitPlan::Ready);
    // completions are already there
    assert_eq!(engine.submit_and_wait(1_000, 5, 7, 0), WaitPlan::Ready);
    // the kernel holds something back
    assert_eq!(
        engine.submit_and_wait(0, 5, 5, SQ_TASKRUN),
        WaitPlan::Enter { wait: 0, flags: ENTER_GETEVENTS, timeout: 0 }
    );
    // a timeout to sleep on
    assert_eq!(
        engine.submit_and_wait(1_000, 5, 5, 0),
        WaitPlan::Enter { wait: 1, flags: ENTER_GETEVENTS, timeout: 1_000 }
    );
    // submissions always enter
    engine.fsync(1, 2);
    assert_eq!(
        engine.submit_and_wait(0, 5, 7, 0),
        WaitPlan::Enter { wait: 0, flags: ENTER_GETEVENTS, timeout: 0 }
    );
    engine.features.features &= !FEATURE_EXT_ARG;
    assert_eq!(engine.submit_and_wait(0, 5, 7, 0), WaitPlan::Compat);
    assert_eq!(Engine::new(engine).work(0, 5, 7, 0), WaitPlan::Compat);
}

#[test]
fn the_compatibility_wait_is_capped_at_one_second() {
    let mut engine = engine(4);
    assert_eq!(engine.submit_and_wait_compat(5, 10, 11, 0x7000), CompatStep::Done);
    assert_eq!(engine.to_submit, 0);

    let step = engine.submit_and_wait_compat(5_000_000_000, 10, 10, 0x7000);
    assert_eq!(
        step,
        CompatStep::Wait {
            timespec: TimeSpec { sec: 0, nanos: 1_000_000_000 },
            pushed: Pushed::Queued(0)
        }
    );
    assert_eq!(COMPAT_TIMEOUT_CAP, 1_000_000_000);
    let mut expected = Op::timeout(0x7000, 1, 0);
    expected.user_data = NO_OP;
    assert_eq!(pending(&engine), vec![expected]);

    let step = engine.submit_and_wait_compat(250, 10, 10, 0x7000);
    assert_eq!(
        step,
        CompatStep::Wait { timespec: TimeSpec { sec: 0, nanos: 250 }, pushed: Pushed::Queued(1) }
    );
}

#[test]
fn completions_are_delivered_last_first_then_in_order() {
    let mut engine = engine(4);
    engine.to_complete = 10;
    assert!(engine.run_events(7, 7).is_empty());
    assert_eq!(engine.to_complete, 10);
    assert_eq!(engine.queue.completion.khead, 0);

    let deliveries = engine.run_events(6, 10);
    assert_eq!(
        deliveries,
        vec![
            Delivery { position: 9, slot: 1, khead: None },
            Delivery { position: 6, slot: 6, khead: Some(7) },
            Delivery { position: 7, slot: 7, khead: Some(8) },
            Delivery { position: 8, slot: 0, khead: Some(9) },
        ]
    );
    assert_eq!(engine.queue.completion.khead, 10);
    assert_eq!(engine.to_complete, 6);

    let single = engine.run_events(10, 11);
    assert_eq!(single, vec![Delivery { position: 10, slot: 2, khead: None }]);
    assert_eq!(engine.queue.completion.khead, 11);
}

#[test]
fn completions_are_delivered_across_the_wrap() {
    let mut engine = engine(4);
    engine.to_complete = 3;
    let deliveries = engine.run_events(u32::MAX - 1, 1);
    let positions: Vec<u32> = deliveries.iter().map(|delivery| delivery.position).collect();
    assert_eq!(positions, vec![0, u32::MAX - 1, u32::MAX]);
    assert_eq!(deliveries[2].khead, Some(0));
    assert_eq!(engine.queue.completion.khead, 1);
    assert_eq!(engine.to_complete, 0);
}

#[test]
fn cancel_names_the_request_and_completes_on_the_no_op() {
    let mut engine = engine(4);
    assert_eq!(engine.cancel(0x4242), Pushed::Queued(0));
    let entry = pending(&engine)[0];
    assert_eq!(entry.op, OpCode::AsyncCancel);
    assert_eq!(entry.addr, 0x4242);
    assert_eq!(entry.user_data, NO_OP);
}

#[test]
fn the_first_expected_wake_arms_the_poll() {
    let mut engine = engine(4);
    assert_eq!(engine.prepare_wake(), Ok(Some(Pushed::Queued(0))));
    assert_eq!(engine.prepare_wake(), Ok(None));
    assert_eq!(engine.expected_wakes, 2);
    let entry = pending(&engine)[0];
    assert_eq!(entry.op, OpCode::PollAdd);
    assert_eq!(entry.fd, EVENT_FD);
    assert_eq!(entry.rw_flags, POLL_IN);
    assert_eq!(entry.user_data, EVENT_REQUEST);
    assert_eq!(engine.to_submit, 1);

    // one wake served: one is still expected, so the poll is armed again
    assert_eq!(engine.finish_wake(1), Ok(Some(Pushed::Queued(1))));
    assert_eq!(engine.finish_wake(1), Ok(None));
    assert_eq!(engine.expected_wakes, 0);
    assert_eq!(engine.finish_wake(1), Err(Error::Overflow));

    engine.expected_wakes = usize::MAX;
    assert_eq!(engine.prepare_wake(), Err(Error::Overflow));
    assert_eq!(engine.expected_wakes, usize::MAX);
}

#[test]
fn wake_events_are_read() {
    assert_eq!(IoUring::process_wake(POLL_IN as isize), WakeEvent::Service);
    assert_eq!(IoUring::process_wake(0), WakeEvent::Rearm);
    assert_eq!(IoUring::process_wake(4), WakeEvent::Rearm);
    assert_eq!(IoUring::process_wake((POLL_IN | POLL_ERR) as isize), WakeEvent::Fatal(None));
    assert_eq!(IoUring::process_wake(-9), WakeEvent::Fatal(Some(OsError { code: 9 })));
}

#[test]
fn the_wake_queue_is_served_in_batches() {
    let mut queue = WakeQueue::new();
    assert!(queue.next_batch().is_empty());
    assert!(queue.wake(1));
    for request in 2..=6 {
        assert!(!queue.wake(request));
    }
    assert_eq!(MAX_RESUME, 4);
    assert_eq!(queue.next_batch(), vec![1, 2, 3, 4]);
    assert!(!queue.wake(7));
    assert_eq!(queue.next_batch(), vec![5, 6, 7]);
    assert!(queue.next_batch().is_empty());
    assert!(queue.wake(8));
}

#[test]
fn missing_opcodes_fall_back_to_system_calls() {
    let mut engine = engine(4);
    assert_eq!(engine.close_kind(), OperationKind::Async);
    engine.features.ops = 0;
    assert_eq!(engine.close_kind(), OperationKind::SyncOffload);
    assert_eq!(engine.close(7, 1), Started::Sync(SyncCall::Close { fd: 7 }));
    assert_eq!(
        engine.socket(2, 1, 6, 1),
        Started::Sync(SyncCall::Socket { domain: 2, socket_type: 1, protocol: 6 })
    );
    assert_eq!(engine.shutdown(7, 2, 1), Started::Sync(SyncCall::Shutdown { socket: 7, how: 2 }));
    assert_eq!(engine.to_submit, 0);
    // everything else still goes through the ring
    assert_eq!(engine.recv(7, 0x10, 4, 0, 1), Started::Async(Pushed::Queued(0)));
}

#[test]
fn bind_and_listen_are_always_system_calls() {
    let mut engine = engine(4);
    assert_eq!(
        engine.bind(7, 0x100, 16, 1),
        Started::Sync(SyncCall::Bind { socket: 7, addr: 0x100, addrlen: 16 })
    );
    assert_eq!(engine.listen(7, 128, 1), Started::Sync(SyncCall::Listen { socket: 7, backlog: 128 }));
    assert_eq!(engine.to_submit, 0);
}

#[test]
fn operations_fill_in_their_entries() {
    let mut engine = engine(32);
    engine.open(0x10, 0o2, 0o644, 1);
    engine.close(3, 2);
    engine.read(3, 0x20, 100, -1, 3);
    engine.write(3, 0x30, usize::MAX, 8, 4);
    engine.socket(2, 1, 6, 5);
    engine.accept(4, 0x40, 0x48, 6);
    engine.connect(4, 0x50, 16, 7);
    engine.recv(4, 0x60, 10, 0x40, 8);
    engine.recvmsg(4, 0x70, 1, 9);
    engine.send(4, 0x80, 10, 0x4000, 10);
    engine.sendmsg(4, 0x90, 2, 11);
    engine.shutdown(4, 1, 12);
    engine.fsync(3, 13);
    engine.statx(-100, 0xa0, 0x1000, 0x7ff, 0xb0, 14);
    engine.poll(4, 5, 15);
    let entries = pending(&engine);
    let user = |mut entry: SubmissionEntry, request: u64| {
        entry.user_data = request;
        entry
    };
    assert_eq!(
        entries,
        vec![
            user(Op::openat(AT_FDCWD, 0x10, 0o2, 0o644, 0), 1),
            user(Op::close(3), 2),
            user(Op::read(3, 0x20, 100, -1, 0), 3),
            user(Op::write(3, 0x30, u32::MAX, 8, 0), 4),
            user(Op::socket(2, 1, 6, 0, 0), 5),
            user(Op::accept(4, 0x40, 0x48, 0, 0), 6),
            user(Op::connect(4, 0x50, 16), 7),
            user(Op::recv(4, 0x60, 10, 0x40), 8),
            user(Op::recvmsg(4, 0x70, 1), 9),
            user(Op::send(4, 0x80, 10, 0x4000), 10),
            user(Op::sendmsg(4, 0x90, 2), 11),
            user(Op::shutdown(4, 1), 12),
            user(Op::fsync(3, 0), 13),
            user(Op::statx(-100, 0xa0, 0x1000, 0x7ff, 0xb0), 14),
            user(Op::poll(4, 5), 15),
        ]
    );
    assert_eq!(AT_FDCWD, -100);
    assert_eq!(clamp_len(17), 17);
    assert_eq!(clamp_len(usize::MAX), u32::MAX);
}

#[test]
fn raw_results_are_read() {
    assert_eq!(syscall_result(0), Ok(0));
    assert_eq!(syscall_result(17), Ok(17));
    assert_eq!(syscall_result(-1), Err(OsError { code: 1 }));
    assert_eq!(syscall_result(-4095), Err(OsError { code: 4095 }));
    assert_eq!(syscall_result(isize::MIN), Err(OsError { code: u16::MAX }));
    assert_eq!(Engine::result_for_open(5), Ok(5));
    assert_eq!(Engine::result_for_open(-2), Err(OsError { code: 2 }));
    assert_eq!(Engine::result_for_socket(6), Ok(6));
    assert_eq!(Engine::result_for_accept(7), Ok(7));
    assert_eq!(Engine::result_for_close(0), Ok(()));
    assert_eq!(Engine::result_for_close(-9), Err(OsError { code: 9 }));
    assert_eq!(Engine::result_for_connect(0), Ok(()));
    assert_eq!(Engine::result_for_shutdown(0), Ok(()));
    assert_eq!(Engine::result_for_bind(-98), Err(OsError { code: 98 }));
    assert_eq!(Engine::result_for_listen(0), Ok(()));
    assert_eq!(Engine::result_for_fsync(0), Ok(()));
    assert_eq!(Engine::result_for_statx(-2), Err(OsError { code: 2 }));
    assert_eq!(Engine::result_for_read(4096), Ok(4096));
    assert_eq!(Engine::result_for_write(0), Ok(0));
    assert_eq!(Engine::result_for_recv(-11), Err(OsError { code: EAGAIN }));
    assert_eq!(Engine::result_for_recvmsg(3), Ok(3));
    assert_eq!(Engine::result_for_send(3), Ok(3));
    assert_eq!(Engine::result_for_sendmsg(3), Ok(3));
    assert_eq!(Engine::result_for_poll(5), Ok(5));
    assert_eq!(Engine::result_for_poll(-4), Err(OsError { code: EINTR }));
}

#[test]
fn sync_results_round_trip() {
    assert_eq!(SyncEngine::sync_result(Ok(12)), 12);
    assert_eq!(SyncEngine::sync_result(Err(OsError { code: 13 })), -13);
    for result in [Ok(0), Ok(99), Err(OsError { code: 1 }), Err(OsError { code: 4095 })] {
        assert_eq!(syscall_result(SyncEngine::sync_result(result)), result);
    }
    assert!(!SyncEngine.has_work());
}

#[test]
fn a_completion_names_its_request() {
    let entry = CompletionEntry { user_data: 0x7f00_1234_5678, result: -125, flags: 0 };
    assert_eq!(entry.complete(), (0x7f00_1234_5678, -125));
    let entry = CompletionEntry { user_data: 1, result: 4096, flags: 2 };
    assert_eq!(entry.complete(), (1, 4096));
}
