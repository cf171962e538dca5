//! A periodic timer that can keep to its schedule.

use vstd::prelude::*;

verus! {

/// Options of a timer.
#[derive(Copy, Clone, Debug, PartialEq, Eq, Structural)]
pub enum TimerFlag {
    /// Keep the ticks on the schedule that the first tick began.
    Align,
}

/// The bit of [`TimerFlag::Align`] in a flag word.
pub const TIMER_ALIGN: u32 = 0x1;

impl TimerFlag {
    /// The bit of the flag in a flag word.
    pub fn bits(&self) -> (bits: u32)
        ensures
            bits == TIMER_ALIGN,
    {
        TIMER_ALIGN
    }
}

/// `a + b`, or the end of the clock's range if the sum leaves it.
pub open spec fn spec_saturating_add(a: u64, b: u64) -> u64 {
    if a + b > u64::MAX {
        u64::MAX
    } else {
        (a + b) as u64
    }
}

/// A timer that ticks one period after the other.
#[derive(Clone, Copy, Debug, PartialEq, Eq, Structural)]
pub struct Timer {
    /// When the last tick was due, in nanoseconds; zero before the first.
    pub expire: u64,
    /// The period in nanoseconds.
    pub delay: u64,
    /// The options, as bits.
    pub flags: u32,
}

impl Timer {
    /// A timer that ticks every `delay` nanoseconds.
    pub fn new(delay: u64, flags: u32) -> (timer: Timer)
        ensures
            timer == (Timer { expire: 0, delay, flags }),
    {
        Timer { expire: 0, delay, flags }
    }

    /// When the next tick is due, as seen at `now`, for a period that is not
    /// zero.
    ///
    /// Without alignment, one period from `now`. With it, one period after
    /// the last tick; if that is already past, one period from `now`, moved
    /// back onto the schedule once there is one.
    pub open spec fn spec_next_expire(self, now: u64) -> u64 {
        if self.flags & TIMER_ALIGN == 0 {
            spec_saturating_add(now, self.delay)
        } else {
            let next = spec_saturating_add(self.expire, self.delay);
            if now <= next {
                next
            } else if self.expire != 0 {
                (spec_saturating_add(now, self.delay) - (now - self.expire) % (
                self.delay as int)) as u64
            } else {
                spec_saturating_add(now, self.delay)
            }
        }
    }

    /// Moves the timer on to the next tick, as seen at `now`, and returns the
    /// absolute expiry to wait for. A period of zero ticks at once: there is
    /// nothing to wait for and the timer stays as it is.
    pub fn next(&mut self, now: u64) -> (expire: Option<u64>)
        ensures
            old(self).delay == 0 ==> expire.is_none() && *final(self) == *old(self),
            old(self).delay != 0 ==> {
                &&& expire == Some(old(self).spec_next_expire(now))
                &&& *final(self) == (Timer {
                    expire: old(self).spec_next_expire(now),
                    ..*old(self)
                })
            },
    {
        if self.delay == 0 {
            return None;
        }
        let expire: u64 = if self.flags & TIMER_ALIGN == 0 {
            now.saturating_add(self.delay)
        } else {
            let next: u64 = self.expire.saturating_add(self.delay);
            if now <= next {
                next
            } else {
                let mut expire: u64 = now.saturating_add(self.delay);
                if self.expire != 0 {
                    let align: u64 = (now - self.expire) % self.delay;
                    proof {
                        vstd::arithmetic::div_mod::lemma_mod_bound(
                            now - self.expire,
                            self.delay as int,
                        );
                    }
                    expire -= align;
                }
                expire
            }
        };
        self.expire = expire;
        Some(expire)
    }
}

} // verus!
