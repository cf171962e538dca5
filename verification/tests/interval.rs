use xx_pulse::error::Error;
use xx_pulse::interval::{Interval, MissedTickBehavior};
use xx_pulse::timer::{Timer, TIMER_ALIGN};

const SECOND: u64 = 1_000_000_000;

#[test]
fn new_interval_bursts_by_default() {
    let interval = Interval::new(SECOND);
    assert_eq!(interval.expire, 0);
    assert_eq!(interval.delay, SECOND);
    assert_eq!(interval.missed_tick_behavior, MissedTickBehavior::Burst);
    assert_eq!(MissedTickBehavior::default(), MissedTickBehavior::Burst);
}

#[test]
fn set_missed_tick_behavior_changes_only_the_behavior() {
    let mut interval = Interval::new(5);
    interval.set_missed_tick_behavior(MissedTickBehavior::Skip);
    assert_eq!(
        interval,
        Interval { expire: 0, delay: 5, missed_tick_behavior: MissedTickBehavior::Skip }
    );
}

#[test]
fn zero_delay_ticks_at_once() {
    let mut interval = Interval::new(0);
    assert_eq!(interval.next(77), Ok(None));
    assert_eq!(interval.expire, 0);
}

#[test]
fn five_ticks_of_one_second_take_five_seconds() {
    let start = 10 * SECOND;
    let mut interval = Interval::new(SECOND);
    let mut now = start;
    for tick in 1..=5u64 {
        let expire = interval.next(now).unwrap();
        assert_eq!(expire, Some(start + tick * SECOND));
        now = expire.unwrap();
    }
    assert_eq!(now - start, 5 * SECOND);
}

#[test]
fn burst_catches_up_without_waiting() {
    let mut interval = Interval::new(SECOND);
    assert_eq!(interval.next(SECOND), Ok(Some(2 * SECOND)));
    // 3.1 s late: the ticks at 3 s, 4 s and 5 s are due at once
    let late = 5 * SECOND + SECOND / 10;
    assert_eq!(interval.next(late), Ok(None));
    assert_eq!(interval.expire, 3 * SECOND);
    assert_eq!(interval.next(late), Ok(None));
    assert_eq!(interval.next(late), Ok(None));
    assert_eq!(interval.next(late), Ok(Some(6 * SECOND)));
}

#[test]
fn delay_counts_from_the_late_tick() {
    let mut interval = Interval::new(SECOND);
    interval.set_missed_tick_behavior(MissedTickBehavior::Delay);
    assert_eq!(interval.next(SECOND), Ok(Some(2 * SECOND)));
    let late = 5 * SECOND + SECOND / 10;
    assert_eq!(interval.next(late), Ok(Some(late + SECOND)));
}

#[test]
fn skip_aligns_to_the_schedule() {
    // the schedule starts at 0 s relative to `origin`; first tick at 1 s
    let origin = 100 * SECOND;
    let mut interval = Interval::new(SECOND);
    interval.set_missed_tick_behavior(MissedTickBehavior::Skip);
    assert_eq!(interval.next(origin), Ok(Some(origin + SECOND)));
    // a blocking segment of 3.1 s after the first tick
    let now = origin + SECOND + 3 * SECOND + SECOND / 10;
    let next = interval.next(now).unwrap().unwrap();
    // 4.1 s have passed: the next tick is at 5 s on the schedule, not at 5.1 s
    assert_eq!(next, origin + 5 * SECOND);
    assert_ne!(next, now + SECOND);
}

#[test]
fn skip_after_blocking_since_the_first_tick() {
    let mut interval = Interval::new(SECOND);
    interval.set_missed_tick_behavior(MissedTickBehavior::Skip);
    interval.expire = SECOND;
    // 3.1 s on the clock: the ticks at 2 s and 3 s are skipped
    assert_eq!(interval.next(3 * SECOND + SECOND / 10), Ok(Some(4 * SECOND)));
}

#[test]
fn skip_on_schedule_behaves_like_burst() {
    let mut interval = Interval::new(10);
    interval.set_missed_tick_behavior(MissedTickBehavior::Skip);
    interval.expire = 100;
    assert_eq!(interval.next(105), Ok(Some(110)));
    assert_eq!(interval.next(120), Ok(None));
    assert_eq!(interval.expire, 120);
}

#[test]
fn overflow_is_reported() {
    let mut interval = Interval::new(10);
    interval.expire = u64::MAX - 5;
    assert_eq!(interval.next(0), Err(Error::Overflow));
    assert_eq!(interval.expire, u64::MAX - 5);

    let mut interval = Interval::new(10);
    interval.set_missed_tick_behavior(MissedTickBehavior::Delay);
    assert_eq!(interval.next(u64::MAX - 5), Err(Error::Overflow));

    let mut interval = Interval::new(10);
    interval.set_missed_tick_behavior(MissedTickBehavior::Skip);
    interval.expire = 100;
    assert_eq!(interval.next(u64::MAX - 5), Err(Error::Overflow));
}

#[test]
fn timer_without_alignment_counts_from_now() {
    let mut timer = Timer::new(10, 0);
    assert_eq!(timer.next(100), Some(110));
    assert_eq!(timer.next(500), Some(510));
    assert_eq!(timer.next(u64::MAX - 1), Some(u64::MAX));
}

#[test]
fn timer_with_alignment_keeps_its_schedule() {
    let mut timer = Timer::new(10, TIMER_ALIGN);
    // no schedule yet: the first tick is one period from now
    assert_eq!(timer.next(100), Some(110));
    assert_eq!(timer.next(112), Some(120));
    // late by more than a period: back onto the schedule
    assert_eq!(timer.next(157), Some(160));
    assert_eq!(Timer::new(0, TIMER_ALIGN).next(5), None);
}
