use vstd::prelude::*;
use crate::time::{sat_add, Duration, Instant};
use vstd::arithmetic::div_mod::{lemma_fundamental_div_mod, lemma_mod_pos_bound};

verus! {

/// A period and the instant it is counted from.
#[derive(Debug, Clone, Copy)]
pub struct NormInterval {
    pub instant: Instant,
    pub duration: Duration,
}

impl NormInterval {
    pub fn new(duration: Duration, now: Instant) -> (r: Self)
        ensures
            r.instant == now,
            r.duration == duration,
    {
        NormInterval { instant: now, duration }
    }
}

/// A fixed period and the instant at which the next one ends.
#[derive(Debug, Clone, Copy)]
pub struct StepInterval {
    pub next: Instant,
    pub duration: Duration,
}

/// How many periods of `duration` have ended since `next`, counting the one
/// that ends at `next`; before `next`, minus the number of whole periods
/// still to go.
pub open spec fn periods_elapsed(next: int, duration: int, now: int) -> int
    recommends
        duration > 0,
{
    if now >= next {
        (now - next) / duration + 1
    } else {
        -((next - now) / duration)
    }
}

/// `x` held within `-i64::MAX ..= i64::MAX`.
pub open spec fn clamp_i64(x: int) -> int {
    if x > i64::MAX {
        i64::MAX as int
    } else if x < -i64::MAX {
        -i64::MAX
    } else {
        x
    }
}

/// `next` moved by `times` periods, or left where the move leaves the clock's range.
pub open spec fn stepped(next: int, duration: int, times: int) -> int {
    let target = next + duration * times;
    if 0 <= target <= u64::MAX {
        target
    } else {
        next
    }
}

impl StepInterval {
    /// Intervals of `duration`, the first ending one period after `now`.
    pub fn new(duration: Duration, now: Instant) -> (r: Self)
        ensures
            r.next.nanos == sat_add(now.nanos as int, duration.nanos as int),
            r.duration == duration,
    {
        StepInterval { next: now.saturating_add(duration), duration }
    }

    pub fn elapsed(&self, now: Instant) -> (r: i64)
        requires
            self.duration.nanos > 0,
        ensures
            r as int == clamp_i64(
                periods_elapsed(self.next.nanos as int, self.duration.nanos as int, now.nanos as int),
            ),
    {
        if now.nanos >= self.next.nanos {
            let q = (now.nanos - self.next.nanos) / self.duration.nanos;
            if q >= i64::MAX as u64 {
                i64::MAX
            } else {
                q as i64 + 1
            }
        } else {
            let q = (self.next.nanos - now.nanos) / self.duration.nanos;
            if q > i64::MAX as u64 {
                -i64::MAX
            } else {
                -(q as i64)
            }
        }
    }

    /// Moves the end of the interval by `times` periods, forward or back;
    /// a move beyond the clock's range is not made.
    pub fn step_by(&mut self, times: i64)
        ensures
            final(self).duration == old(self).duration,
            final(self).next.nanos == stepped(
                old(self).next.nanos as int,
                old(self).duration.nanos as int,
                times as int,
            ),
    {
        let ghost target = self.next.nanos + self.duration.nanos * times;
        let magnitude: u64 = if times >= 0 {
            times as u64
        } else {
            (-(times as i128)) as u64
        };
        let ghost d = self.duration.nanos as int;
        assert(d * times == if times >= 0 {
            d * magnitude
        } else {
            -(d * magnitude)
        }) by (nonlinear_arith)
            requires
                magnitude as int == if times >= 0 {
                    times as int
                } else {
                    -times
                },
        ;
        match self.duration.nanos.checked_mul(magnitude) {
            Some(offset) => {
                if times > 0 {
                    match self.next.nanos.checked_add(offset) {
                        Some(nanos) => self.next = Instant { nanos },
                        None => {},
                    }
                } else {
                    match self.next.nanos.checked_sub(offset) {
                        Some(nanos) => self.next = Instant { nanos },
                        None => {},
                    }
                }
            },
            None => {
                assert(target < 0 || target > u64::MAX);
            },
        }
    }

    /// Where one period or more has ended, moves on past all that have
    /// ended; returns the periods elapsed before the move.
    pub fn step_if_elapsed(&mut self, now: Instant) -> (r: i64)
        requires
            old(self).duration.nanos > 0,
        ensures
            r as int == clamp_i64(
                periods_elapsed(old(self).next.nanos as int, old(self).duration.nanos as int, now.nanos as int),
            ),
            final(self).duration == old(self).duration,
            final(self).next.nanos == if r >= 1 {
                stepped(old(self).next.nanos as int, old(self).duration.nanos as int, r as int)
            } else {
                old(self).next.nanos as int
            },
            r >= 1 && r < i64::MAX && now.nanos + old(self).duration.nanos <= u64::MAX ==> now.nanos
                < final(self).next.nanos <= now.nanos + old(self).duration.nanos,
    {
        let elapsed = self.elapsed(now);
        if elapsed >= 1 {
            self.step_by(elapsed);
            proof {
                if elapsed < i64::MAX && now.nanos + self.duration.nanos <= u64::MAX {
                    let d = old(self).duration.nanos as int;
                    let x = now.nanos - old(self).next.nanos;
                    lemma_fundamental_div_mod(x, d);
                    lemma_mod_pos_bound(x, d);
                    let q = x / d;
                    assert(d * (q + 1) == d * q + d) by (nonlinear_arith);
                }
            }
        }
        elapsed
    }

    /// Moves the end of the interval to the first period end after `now`:
    /// forward past the periods that have ended, or back over the whole
    /// periods still to go; returns the periods elapsed before the move.
    pub fn step_next(&mut self, now: Instant) -> (r: i64)
        requires
            old(self).duration.nanos > 0,
        ensures
            r as int == clamp_i64(
                periods_elapsed(old(self).next.nanos as int, old(self).duration.nanos as int, now.nanos as int),
            ),
            final(self).duration == old(self).duration,
            final(self).next.nanos == stepped(
                old(self).next.nanos as int,
                old(self).duration.nanos as int,
                next_steps(old(self).next.nanos as int, old(self).duration.nanos as int, now.nanos as int, r as int),
            ),
            -i64::MAX < r < i64::MAX && now.nanos + old(self).duration.nanos <= u64::MAX ==> now.nanos
                < final(self).next.nanos <= now.nanos + old(self).duration.nanos,
    {
        let elapsed = self.elapsed(now);
        let times = if elapsed >= 1 {
            elapsed
        } else if (self.next.nanos - now.nanos) % self.duration.nanos == 0 {
            elapsed + 1
        } else {
            elapsed
        };
        self.step_by(times);
        proof {
            if -i64::MAX < elapsed < i64::MAX && now.nanos + self.duration.nanos <= u64::MAX {
                let d = old(self).duration.nanos as int;
                if elapsed >= 1 {
                    let x = now.nanos - old(self).next.nanos;
                    lemma_fundamental_div_mod(x, d);
                    lemma_mod_pos_bound(x, d);
                    let q = x / d;
                    assert(d * (q + 1) == d * q + d) by (nonlinear_arith);
                } else {
                    let x = old(self).next.nanos - now.nanos;
                    lemma_fundamental_div_mod(x, d);
                    lemma_mod_pos_bound(x, d);
                    let k = x / d;
                    assert(d * (-k) == -(d * k)) by (nonlinear_arith);
                    assert(d * (-k + 1) == -(d * k) + d) by (nonlinear_arith);
                }
            }
        }
        elapsed
    }
}

/// The periods that `step_next` moves by, given the periods elapsed `e`:
/// all of them where one or more has ended; else back over the whole
/// periods still to go, keeping one where they fill the gap to `next` exactly.
pub open spec fn next_steps(next: int, duration: int, now: int, e: int) -> int {
    if e >= 1 {
        e
    } else if (next - now) % duration == 0 {
        e + 1
    } else {
        e
    }
}

/// How many times something happened within one interval.
#[derive(Debug, Clone, Copy)]
pub struct IntervalCount {
    pub count: usize,
    pub duration: Duration,
}

/// Counts events, and hands the count over once per interval.
#[derive(Debug, Clone, Copy)]
pub struct IntervalCounter {
    pub count: usize,
    pub interval: StepInterval,
}

impl IntervalCounter {
    pub fn new(duration: Duration, now: Instant) -> (r: Self)
        ensures
            r.count == 0,
            r.interval.duration == duration,
            r.interval.next.nanos == sat_add(now.nanos as int, duration.nanos as int),
    {
        IntervalCounter { count: 0, interval: StepInterval::new(duration, now) }
    }

    pub fn add(&mut self)
        requires
            old(self).count < usize::MAX,
        ensures
            final(self).count == old(self).count + 1,
            final(self).interval == old(self).interval,
    {
        self.count = self.count + 1;
    }

    /// Once the interval has ended, the count so far, which starts again
    /// from zero; before that, nothing.
    pub fn count(&mut self, now: Instant) -> (r: Option<IntervalCount>)
        requires
            old(self).interval.duration.nanos > 0,
        ensures
            ({
                let e = clamp_i64(
                    periods_elapsed(
                        old(self).interval.next.nanos as int,
                        old(self).interval.duration.nanos as int,
                        now.nanos as int,
                    ),
                );
                &&& final(self).interval.duration == old(self).interval.duration
                &&& if e >= 1 {
                    &&& r == Some(
                        IntervalCount { count: old(self).count, duration: old(self).interval.duration },
                    )
                    &&& final(self).count == 0
                    &&& final(self).interval.next.nanos == stepped(
                        old(self).interval.next.nanos as int,
                        old(self).interval.duration.nanos as int,
                        e,
                    )
                } else {
                    &&& r is None
                    &&& *final(self) == *old(self)
                }
            }),
    {
        if self.interval.step_if_elapsed(now) >= 1 {
            let counted = IntervalCount { count: self.count, duration: self.interval.duration };
            self.count = 0;
            Some(counted)
        } else {
            None
        }
    }
}

} // verus!
