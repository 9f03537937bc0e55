//! A polled expiry timer on the monotonic clock.
//!
//! A [`Timer`] is a start instant and a target duration. It never changes: re-arming
//! means building a new timer. Whether it has expired is a function of the instant at
//! which it is asked, so every clock reading is made in one place and handed on as a
//! value.

use std::time::{Duration, Instant};
use vstd::prelude::*;

verus! {

/// A point on the monotonic clock.
#[verifier::external_type_specification]
#[verifier::external_body]
pub struct ExInstant(Instant);

/// The length of a span of time in whole nanoseconds.
pub uninterp spec fn duration_nanos(d: Duration) -> nat;

/// The span from `earlier` to `later`, empty where `earlier` is the later of the two.
pub uninterp spec fn span_between(later: Instant, earlier: Instant) -> Duration;

/// `Instant::now` reads the monotonic clock. Nothing is claimed of the reading.
pub assume_specification[ Instant::now ]() -> (now: Instant);

/// `Instant::saturating_duration_since` gives the time from `earlier` to `later`. It
/// depends on the two instants alone, and no time lies between an instant and itself.
pub assume_specification[ Instant::saturating_duration_since ](
    later: &Instant,
    earlier: Instant,
) -> (span: Duration)
    ensures
        span == span_between(*later, earlier),
        *later == earlier ==> duration_nanos(span) == 0,
;

/// `Duration::as_nanos` gives the whole number of nanoseconds in the span.
pub assume_specification[ Duration::as_nanos ](d: &Duration) -> (n: u128)
    ensures
        n == duration_nanos(*d),
;

/// `Duration::from_secs` builds the span of that many whole seconds.
pub assume_specification[ Duration::from_secs ](secs: u64) -> (d: Duration)
    ensures
        duration_nanos(d) == secs * 1_000_000_000,
;

/// `Duration::from_millis` builds the span of that many whole milliseconds.
pub assume_specification[ Duration::from_millis ](millis: u64) -> (d: Duration)
    ensures
        duration_nanos(d) == millis * 1_000_000,
;

/// `Duration::from_micros` builds the span of that many whole microseconds.
pub assume_specification[ Duration::from_micros ](micros: u64) -> (d: Duration)
    ensures
        duration_nanos(d) == micros * 1_000,
;

/// Nanoseconds from `since` to `now`, zero where `now` lies before `since`.
pub open spec fn elapsed_nanos(now: Instant, since: Instant) -> nat {
    if now == since {
        0
    } else {
        duration_nanos(span_between(now, since))
    }
}

/// Measures the time from `since` to `now` in nanoseconds.
pub fn nanos_between(now: Instant, since: Instant) -> (n: u128)
    ensures
        n == elapsed_nanos(now, since),
{
    let span = now.saturating_duration_since(since);
    span.as_nanos()
}

/// What a [`Timer`] is to a specification: the instant it was armed at and its target
/// in nanoseconds.
pub struct TimerView {
    pub start: Instant,
    pub target: nat,
}

impl TimerView {
    /// Expiry as a function of elapsed time alone: the elapsed time has reached the
    /// target.
    pub open spec fn expired_after(self, elapsed: nat) -> bool {
        elapsed >= self.target
    }

    /// The timer has expired at `now`.
    pub open spec fn expired(self, now: Instant) -> bool {
        self.expired_after(elapsed_nanos(now, self.start))
    }
}

/// A start instant and the duration after which the timer counts as expired.
#[derive(Debug, Clone, Copy)]
pub struct Timer {
    timer_start: Instant,
    pub target_duration: Duration,
}

impl View for Timer {
    type V = TimerView;

    closed spec fn view(&self) -> TimerView {
        TimerView { start: self.timer_start, target: duration_nanos(self.target_duration) }
    }
}

impl Timer {
    /// Arms a timer at the given instant.
    pub fn starting_at(start: Instant, target_duration: Duration) -> (timer: Timer)
        ensures
            timer@ == (TimerView { start, target: duration_nanos(target_duration) }),
    {
        Timer { timer_start: start, target_duration }
    }

    /// Arms a timer at the current reading of the monotonic clock. With a target above
    /// zero it has not expired at that reading.
    pub fn new(target_duration: Duration) -> (timer: Timer)
        ensures
            timer@.target == duration_nanos(target_duration),
            timer@.target > 0 ==> !timer@.expired(timer@.start),
    {
        Timer::starting_at(Instant::now(), target_duration)
    }

    /// Whether the timer has expired at `now`.
    pub fn expired_at(&self, now: Instant) -> (expired: bool)
        ensures
            expired == self@.expired(now),
    {
        nanos_between(now, self.timer_start) >= self.target_duration.as_nanos()
    }

    /// Whether the timer has expired at the current reading of the monotonic clock.
    ///
    /// The reading is not known to the caller, so the contract holds for each one: the
    /// answer is that of [`Timer::expired_at`] for some instant, and a timer with an
    /// empty target has always expired.
    pub fn has_expired(&self) -> (expired: bool)
        ensures
            exists|now: Instant| expired == self@.expired(now),
            self@.target == 0 ==> expired,
    {
        self.expired_at(Instant::now())
    }
}

/// A timer with a target above zero has not expired at the instant it was armed at.
/// Once the elapsed time has reached the target it has expired, and it stays expired
/// from then on.
pub proof fn lemma_timer_expiry(timer: TimerView, elapsed: nat, later: nat)
    ensures
        timer.target > 0 ==> !timer.expired(timer.start),
        timer.target > 0 ==> !timer.expired_after(0),
        timer.expired_after(elapsed) <==> elapsed >= timer.target,
        timer.expired_after(elapsed) && elapsed <= later ==> timer.expired_after(later),
{
}

} // verus!
