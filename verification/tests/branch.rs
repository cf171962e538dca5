use xx_pulse::async_runtime::{Blocked, Context};
use xx_pulse::driver::{Cancel, Cancelled, Driver, Timeout};
use xx_pulse::engine::uring::engine::IoUring;
use xx_pulse::engine::uring::params::{IoRingFeatures, Parameters};
use xx_pulse::engine::Engine;
use xx_pulse::error::Error;
use xx_pulse::future::Progress;
use xx_pulse::impls::timeout;
use xx_pulse::ops::branch::{
    Branch, Join, JoinData, JoinHandle, JoinPhase, JoinStep, Select, SelectData, SelectPhase,
    SelectStep,
};
use xx_pulse::ops::timers::sleep;

type Race = SelectData<i32, &'static str, u8, u16>;

fn driver() -> Driver {
    let mut params = Parameters::zeroed();
    params.sq_entries = 8;
    params.cq_entries = 16;
    let features = IoRingFeatures { ops: u64::MAX, setup_flags: u32::MAX, features: u32::MAX };
    Driver::new(Engine::new(IoUring::new(features, &params, 3, 0x1000, 0x2000)))
}

#[test]
fn a_first_task_that_finishes_inline_wins_alone() {
    let mut race = Race::new();
    assert_eq!(race.phase, SelectPhase::Init);
    let step = race.started_first(Progress::Done(5));
    assert_eq!(step, SelectStep::Done(Select::First(5, None)));
    assert_eq!(race.phase, SelectPhase::Finished);
    assert!(!race.awaits_first());
    assert!(!race.awaits_second());
}

#[test]
fn the_first_completion_cancels_the_other_task() {
    let mut race = Race::new();
    assert_eq!(race.started_first(Progress::Pending(1)), SelectStep::StartSecond);
    assert_eq!(race.started_second(Progress::Pending(2)), SelectStep::Pending);
    assert!(race.awaits_first() && race.awaits_second());
    assert_eq!(race.complete_first(10), SelectStep::CancelSecond(2));
    assert_eq!(race.phase, SelectPhase::Cancelling(Branch::First));
    assert!(!race.awaits_first());
    assert!(race.awaits_second());
    assert_eq!(race.complete_second("late"), SelectStep::Done(Select::First(10, Some("late"))));
    assert_eq!(race.phase, SelectPhase::Finished);
    assert!(!race.awaits_second());
}

#[test]
fn the_second_task_can_win() {
    let mut race = Race::new();
    race.started_first(Progress::Pending(1));
    race.started_second(Progress::Pending(2));
    assert_eq!(race.complete_second("fast"), SelectStep::CancelFirst(1));
    assert_eq!(race.phase, SelectPhase::Cancelling(Branch::Second));
    assert_eq!(race.complete_first(-1), SelectStep::Done(Select::Second("fast", Some(-1))));
}

#[test]
fn a_second_task_that_finishes_inline_still_waits_for_the_first() {
    let mut race = Race::new();
    race.started_first(Progress::Pending(1));
    assert_eq!(race.started_second(Progress::Done("now")), SelectStep::CancelFirst(1));
    assert_eq!(race.phase, SelectPhase::SyncCancel);
    assert!(race.awaits_first());
    // the cancel token returns without completing the first task
    assert_eq!(race.cancelled(), SelectStep::Pending);
    assert_eq!(race.phase, SelectPhase::Cancelling(Branch::Second));
    assert_eq!(race.complete_first(0), SelectStep::Done(Select::Second("now", Some(0))));
}

#[test]
fn a_first_task_cancelled_inline_ends_the_race_at_once() {
    let mut race = Race::new();
    race.started_first(Progress::Pending(1));
    assert_eq!(race.started_second(Progress::Done("now")), SelectStep::CancelFirst(1));
    // the first task completes while its cancel token runs
    assert_eq!(race.complete_first(-4), SelectStep::Pending);
    assert!(!race.awaits_first());
    assert_eq!(race.cancelled(), SelectStep::Done(Select::Second("now", Some(-4))));
    assert_eq!(race.phase, SelectPhase::Finished);
}

#[test]
fn select_flattens_to_the_winner() {
    assert_eq!(Select::First(1, Some(2)).flatten(), 1);
    assert_eq!(Select::<i32, i32>::Second(3, None).flatten(), 3);
}

#[test]
fn a_sleep_loses_to_a_shorter_timeout() {
    const MS: u64 = 1_000_000;
    let mut driver = driver();
    let mut first = Context::new();
    let mut second = Context::new();
    let mut race: SelectData<Result<(), Error>, Result<(), Error>, Cancel, Cancel> =
        SelectData::new();

    // sleep(1 s) and timeout(500 ms), both started at 0
    assert_eq!(sleep(&mut first, &mut driver, 1_000 * MS, 1, 0), Blocked::Suspend);
    let step = race.started_first(Progress::Pending(first.cancel.unwrap()));
    assert_eq!(step, SelectStep::StartSecond);
    assert_eq!(sleep(&mut second, &mut driver, 500 * MS, 2, 0), Blocked::Suspend);
    assert_eq!(race.started_second(Progress::Pending(second.cancel.unwrap())), SelectStep::Pending);

    // nothing fires early
    assert!(driver.run_timers(499 * MS).is_empty());
    assert_eq!(driver.timer_wait(499 * MS), MS);

    // at 500 ms the timeout fires and the sleep is cancelled
    assert_eq!(driver.run_timers(500 * MS), vec![Timeout { expire: 500 * MS, request: 2 }]);
    let token = match race.complete_second(Ok(())) {
        SelectStep::CancelFirst(token) => token,
        step => panic!("unexpected step {:?}", step),
    };
    assert_eq!(token, Cancel::Timer(Timeout { expire: 1_000 * MS, request: 1 }));
    assert_eq!(driver.cancel(token), Ok(Cancelled::Interrupted(1)));
    let outcome = race.complete_first(Err(Error::Interrupted));
    assert_eq!(outcome, SelectStep::Done(Select::Second(Ok(()), Some(Err(Error::Interrupted)))));
    assert!(driver.timers.is_empty());
}

#[test]
fn a_task_under_a_timeout() {
    assert_eq!(timeout(Select::First(7, None)), Some(7));
    assert_eq!(timeout(Select::First(7, Some(Err(Error::Interrupted)))), Some(7));
    assert_eq!(timeout(Select::<i32, _>::Second(Ok(()), Some(3))), None);
}

#[test]
fn a_join_of_two_inline_tasks_is_done_in_one_tick() {
    let mut join: JoinData<i32, &str> = JoinData::new();
    assert_eq!(join.started_first::<()>(Progress::Done(1)), JoinStep::StartSecond);
    assert_eq!(join.started_second::<()>(Progress::Done("two")), JoinStep::Done(Join(1, "two")));
    assert_eq!(join.phase, JoinPhase::Finished);
}

#[test]
fn a_join_waits_for_both_tasks() {
    let mut join: JoinData<i32, &str> = JoinData::new();
    join.started_first(Progress::Pending(()));
    assert_eq!(join.phase, JoinPhase::FirstStarted);
    assert_eq!(join.started_second(Progress::Pending(())), JoinStep::Pending);
    assert_eq!(join.complete_second("b"), JoinStep::Pending);
    assert_eq!(join.complete_first(1), JoinStep::Done(Join(1, "b")));

    let mut join: JoinData<i32, &str> = JoinData::new();
    join.started_first(Progress::Pending(()));
    join.started_second(Progress::Pending(()));
    assert_eq!(join.complete_first(2), JoinStep::Pending);
    assert_eq!(join.complete_second("c"), JoinStep::Done(Join(2, "c")));
}

#[test]
fn a_join_waits_for_the_pending_half() {
    let mut join: JoinData<i32, &str> = JoinData::new();
    join.started_first::<()>(Progress::Done(1));
    assert_eq!(join.started_second(Progress::Pending(())), JoinStep::Pending);
    assert_eq!(join.complete_second("b"), JoinStep::Done(Join(1, "b")));

    let mut join: JoinData<i32, &str> = JoinData::new();
    join.started_first(Progress::Pending(()));
    assert_eq!(join.started_second::<()>(Progress::Done("b")), JoinStep::Pending);
    assert_eq!(join.phase, JoinPhase::Waiting);
    assert_eq!(join.complete_first(1), JoinStep::Done(Join(1, "b")));
}

#[test]
fn join_flattens_to_the_first_error() {
    let ok: Join<Result<i32, &str>, Result<u8, &str>> = Join(Ok(1), Ok(2));
    assert_eq!(ok.flatten(), Ok((1, 2)));
    assert_eq!(Join(Err::<i32, _>("a"), Ok::<u8, _>(2)).flatten(), Err("a"));
    assert_eq!(Join(Ok::<i32, _>(1), Err::<u8, _>("b")).flatten(), Err("b"));
    assert_eq!(Join(Err::<i32, _>("a"), Err::<u8, _>("b")).flatten(), Err("a"));
}

#[test]
fn a_spawned_task_hands_its_result_to_the_waiter() {
    // the task finishes first: the result waits in the handle
    let mut handle: JoinHandle<i32> = JoinHandle::new();
    assert_eq!(handle.complete(23), None);
    assert!(handle.finished);
    assert_eq!(handle.wait(0x10), Progress::Done(23));
    assert_eq!(handle.result, None);

    // the waiter comes first: the result goes straight to its request
    let mut handle: JoinHandle<i32> = JoinHandle::new();
    assert_eq!(handle.wait(0x10), Progress::Pending(0x10));
    assert_eq!(handle.complete(23), Some((0x10, 23)));
    assert_eq!(handle.result, None);
    assert_eq!(handle.waiter, None);
}

#[test]
fn a_dropped_handle_keeps_nothing_alive() {
    let mut handle: JoinHandle<Vec<u8>> = JoinHandle::new();
    assert_eq!(handle.complete(vec![1, 2, 3]), None);
    assert_eq!(handle.waiter, None);
    drop(handle);
}
