//! How long to keep trying.

use vstd::prelude::*;

verus! {

/// How many nanoseconds are in a second.
pub const NANOS_PER_SEC: u128 = 1_000_000_000;

/// A pause between tries, with a limit on how long they may go on.
///
/// Moments are numbers of nanoseconds from some fixed start.
#[derive(Debug)]
pub struct TimedInterval {
    /// How long one pause is, in nanoseconds.
    pub period: u128,
    /// How many pauses the tries may take.
    pub times: u32,
    /// When the tries are over, if there is a limit on them.
    pub timeout: Option<u128>,
}

impl TimedInterval {
    /// Whether the tries are over at the moment `now`.
    pub open spec fn spec_expired(&self, now: u128) -> bool {
        match self.timeout {
            Some(timeout) => timeout <= now,
            None => false,
        }
    }

    /// The whole seconds of one pause.
    pub open spec fn spec_period_secs(&self) -> int {
        self.period as int / NANOS_PER_SEC as int
    }

    /// How long the tries may go on once they are limited, in nanoseconds. Only
    /// the whole seconds of a pause count.
    pub open spec fn spec_total(&self) -> int {
        self.spec_period_secs() * self.times * NANOS_PER_SEC
    }

    /// Starts without a limit.
    pub fn from(period: u128, times: u32) -> (interval: Self)
        ensures
            interval == (TimedInterval { period, times, timeout: None }),
    {
        TimedInterval { period, times, timeout: None }
    }

    /// Tells, after a pause, whether the tries are over.
    pub fn check_expired(&self, now: u128) -> (expired: bool)
        ensures
            expired == self.spec_expired(now),
    {
        match self.timeout {
            Some(timeout) => now >= timeout,
            None => false,
        }
    }

    /// Limits the tries to the number of pauses, counted from `now`.
    pub fn begin(&mut self, now: u128)
        requires
            old(self).spec_period_secs() <= u64::MAX,
            old(self).spec_period_secs() * old(self).times <= u64::MAX,
            now + old(self).spec_total() <= u128::MAX,
        ensures
            *final(self) == (TimedInterval {
                timeout: Some((now + old(self).spec_total()) as u128),
                ..*old(self)
            }),
    {
        let period_secs: u64 = (self.period / NANOS_PER_SEC) as u64;
        let total: u64 = period_secs * self.times as u64;
        self.timeout = Some(now + total as u128 * NANOS_PER_SEC);
    }

    /// Takes the limit away.
    pub fn reset(&mut self)
        ensures
            *final(self) == (TimedInterval { timeout: None, ..*old(self) }),
    {
        self.timeout = None;
    }
}

/// Once limited, the tries are over from exactly the end of the last pause on.
pub proof fn limit_is_the_pauses(
    before: TimedInterval,
    after: TimedInterval,
    start: u128,
    now: u128,
)
    requires
        start + before.spec_total() <= u128::MAX,
        after == (TimedInterval {
            timeout: Some((start + before.spec_total()) as u128),
            ..before
        }),
    ensures
        after.spec_expired(now) <==> start + before.spec_period_secs() * before.times
            * NANOS_PER_SEC <= now,
{
    let period_secs = before.spec_period_secs();
    assert(0 <= period_secs * before.times) by (nonlinear_arith)
        requires
            0 <= period_secs,
    ;
}

/// The tries start with the pause and the number that they are given, and
/// without a limit.
pub proof fn tries_start_unlimited(period: u128, times: u32, interval: TimedInterval)
    requires
        call_ensures(TimedInterval::from, (period, times), interval),
    ensures
        interval.period == period,
        interval.times == times,
        interval.timeout is None,
{
}

/// Tries are over exactly from the moment on that they are limited to. Without a
/// limit they are never over.
pub proof fn tries_are_over_at_the_limit(interval: &TimedInterval, now: u128, expired: bool)
    requires
        call_ensures(TimedInterval::check_expired, (interval, now), expired),
    ensures
        interval.timeout is None ==> !expired,
        interval.timeout matches Some(timeout) ==> (expired <==> timeout <= now),
        expired == interval.spec_expired(now),
{
}

/// The whole seconds of a pause are all that fit into it: together they are no
/// longer than the pause, and one more would be.
pub proof fn whole_seconds_fill_the_pause(interval: TimedInterval)
    ensures
        interval.spec_period_secs() * 1_000_000_000 <= interval.period,
        interval.period < (interval.spec_period_secs() + 1) * 1_000_000_000,
        0 <= interval.spec_period_secs(),
{
}

/// Limiting the tries sets the limit as many seconds after `now` as the whole
/// seconds of all pauses make, and changes nothing else.
pub proof fn limit_comes_after_all_pauses(interval: &mut TimedInterval, now: u128, seconds: int)
    requires
        call_ensures(TimedInterval::begin, (interval, now), ()),
        old(interval).spec_period_secs() <= u64::MAX,
        old(interval).spec_period_secs() * old(interval).times <= u64::MAX,
        now + old(interval).spec_total() <= u128::MAX,
        0 <= seconds,
        seconds * 1_000_000_000 <= old(interval).period < (seconds + 1) * 1_000_000_000,
    ensures
        final(interval).timeout matches Some(timeout) && timeout == now + seconds * old(
            interval,
        ).times * 1_000_000_000,
        final(interval).period == old(interval).period,
        final(interval).times == old(interval).times,
{
    assert(seconds == old(interval).spec_period_secs());
    let times = old(interval).times;
    assert(0 <= seconds * times) by (nonlinear_arith)
        requires
            0 <= seconds,
    ;
}

/// Taking the limit away takes nothing else away: the tries are never over.
pub proof fn reset_tries_are_never_over(interval: &mut TimedInterval, now: u128)
    requires
        call_ensures(TimedInterval::reset, (interval,), ()),
    ensures
        final(interval).timeout is None,
        !final(interval).spec_expired(now),
        final(interval).period == old(interval).period,
        final(interval).times == old(interval).times,
{
}

} // verus!
