//! Periodic ticks and what to do about the ticks a slow task missed.

use vstd::prelude::*;
use vstd::arithmetic::div_mod::{lemma_fundamental_div_mod, lemma_mod_bound};
use crate::error::Error;

verus! {

/// What an interval does when the task was late for a tick.
#[derive(Clone, Copy, PartialEq, Eq, PartialOrd, Ord, Debug, Structural)]
pub enum MissedTickBehavior {
    /// Tick at once until the schedule is caught up.
    Burst,
    /// Tick one period after the late tick was noticed.
    Delay,
    /// Skip the missed ticks and tick at the next point of the schedule.
    Skip,
}

impl Default for MissedTickBehavior {
    fn default() -> (behavior: MissedTickBehavior)
        ensures
            behavior == MissedTickBehavior::Burst,
    {
        MissedTickBehavior::Burst
    }
}

/// A schedule of ticks one period apart, on the runtime's clock.
#[derive(Clone, Copy, Debug, PartialEq, Eq, Structural)]
pub struct Interval {
    /// When the last tick was due, in nanoseconds; zero before the first.
    pub expire: u64,
    /// The period in nanoseconds.
    pub delay: u64,
    pub missed_tick_behavior: MissedTickBehavior,
}

impl Interval {
    /// An interval that ticks every `delay` nanoseconds and bursts after
    /// missed ticks. The schedule starts with the first call of
    /// [`Interval::next`].
    pub fn new(delay: u64) -> (interval: Interval)
        ensures
            interval == (Interval {
                expire: 0,
                delay,
                missed_tick_behavior: MissedTickBehavior::Burst,
            }),
    {
        Interval { expire: 0, delay, missed_tick_behavior: MissedTickBehavior::Burst }
    }

    /// Chooses what to do about missed ticks.
    pub fn set_missed_tick_behavior(&mut self, behavior: MissedTickBehavior)
        ensures
            *final(self) == (Interval { missed_tick_behavior: behavior, ..*old(self) }),
    {
        self.missed_tick_behavior = behavior;
    }

    /// The tick the schedule counts from at `now`: the last one that was
    /// due, or `now` itself before the first.
    pub open spec fn spec_base(self, now: u64) -> u64 {
        if self.expire == 0 {
            now
        } else {
            self.expire
        }
    }

    /// When the next tick is due, as seen at `now`, for a period that is not
    /// zero.
    ///
    /// Normally one period after the last tick. If that is already past: a
    /// burst keeps it, a delay takes one period from `now`, and a skip takes
    /// the first point of the schedule after `now`.
    pub open spec fn spec_next_expire(self, now: u64) -> int {
        let base = self.spec_base(now);
        match self.missed_tick_behavior {
            MissedTickBehavior::Burst => base + self.delay,
            MissedTickBehavior::Delay => now + self.delay,
            MissedTickBehavior::Skip => {
                if now > base + self.delay {
                    base + ((now - base) / (self.delay as int) + 1) * self.delay
                } else {
                    base + self.delay
                }
            },
        }
    }

    /// Whether computing the next tick at `now` leaves the range of the
    /// clock.
    pub open spec fn spec_overflows(self, now: u64) -> bool {
        let base = self.spec_base(now);
        match self.missed_tick_behavior {
            MissedTickBehavior::Burst => base + self.delay > u64::MAX,
            MissedTickBehavior::Delay => now + self.delay > u64::MAX,
            MissedTickBehavior::Skip => base + self.delay > u64::MAX || (now > base + self.delay
                && now + self.delay > u64::MAX),
        }
    }

    /// Moves the schedule on to the next tick, as seen at `now`, and says
    /// what to wait for: `Some` with the absolute expiry of the tick if it
    /// lies ahead, `None` if the tick is due already.
    ///
    /// A period of zero ticks at once and keeps no schedule. If the next
    /// tick cannot be computed within the range of the clock, the error is
    /// `Overflow` and the schedule stays as it was, except that a first call
    /// has started it at `now`.
    pub fn next(&mut self, now: u64) -> (res: Result<Option<u64>, Error>)
        ensures
            old(self).delay == 0 ==> res == Ok::<Option<u64>, Error>(None) && *final(self) == *old(
                self,
            ),
            old(self).delay != 0 && old(self).spec_overflows(now) ==> {
                &&& res == Err::<Option<u64>, Error>(Error::Overflow)
                &&& *final(self) == (Interval { expire: old(self).spec_base(now), ..*old(self) })
            },
            old(self).delay != 0 && !old(self).spec_overflows(now) ==> {
                &&& *final(self) == (Interval {
                    expire: old(self).spec_next_expire(now) as u64,
                    ..*old(self)
                })
                &&& final(self).expire == old(self).spec_next_expire(now)
                &&& res == Ok::<Option<u64>, Error>(
                    if final(self).expire > now {
                        Some(final(self).expire)
                    } else {
                        None
                    },
                )
            },
    {
        if self.delay == 0 {
            return Ok(None);
        }
        if self.expire == 0 {
            self.expire = now;
        }
        let base: u64 = self.expire;
        let delay: u64 = self.delay;
        let next: u64 = match self.missed_tick_behavior {
            MissedTickBehavior::Burst => match base.checked_add(delay) {
                Some(next) => next,
                None => {
                    return Err(Error::Overflow);
                },
            },
            MissedTickBehavior::Delay => match now.checked_add(delay) {
                Some(next) => next,
                None => {
                    return Err(Error::Overflow);
                },
            },
            MissedTickBehavior::Skip => {
                let next: u64 = match base.checked_add(delay) {
                    Some(next) => next,
                    None => {
                        return Err(Error::Overflow);
                    },
                };
                if now > next {
                    let late: u64 = match now.checked_add(delay) {
                        Some(late) => late,
                        None => {
                            return Err(Error::Overflow);
                        },
                    };
                    let align: u64 = (now - base) % delay;
                    proof {
                        lemma_fundamental_div_mod(now - base, delay as int);
                        lemma_mod_bound(now - base, delay as int);
                        let q = (now - base) / (delay as int);
                        assert(delay * q == q * delay) by (nonlinear_arith);
                        assert((q + 1) * delay == q * delay + delay) by (nonlinear_arith);
                    }
                    late - align
                } else {
                    next
                }
            },
        };
        self.expire = next;
        if next > now {
            Ok(Some(next))
        } else {
            Ok(None)
        }
    }
}

/// With missed ticks skipped, the next tick is the first point of the
/// schedule after `now`: it lies after `now`, at most one period ahead, and
/// a whole number of periods from the last tick.
pub proof fn lemma_skip_aligns(interval: Interval, now: u64)
    requires
        interval.delay != 0,
        interval.missed_tick_behavior == MissedTickBehavior::Skip,
        now > interval.spec_base(now) + interval.delay,
    ensures
        now < interval.spec_next_expire(now) <= now + interval.delay,
        (interval.spec_next_expire(now) - interval.spec_base(now)) % (interval.delay as int) == 0,
{
    let base = interval.spec_base(now);
    let delay = interval.delay as int;
    let q = (now - base) / delay;
    lemma_fundamental_div_mod(now - base, delay);
    lemma_mod_bound(now - base, delay);
    assert(delay * q == q * delay) by (nonlinear_arith);
    assert((q + 1) * delay == q * delay + delay) by (nonlinear_arith);
    vstd::arithmetic::div_mod::lemma_mod_multiples_basic(q + 1, delay);
}

} // verus!
