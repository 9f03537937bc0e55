//! The phase transitions.
//!
//! Each phase has one rule, looked at once per tick after sampling:
//!
//! | from          | to            | when                                                    |
//! |---------------|---------------|---------------------------------------------------------|
//! | `Reload`      | `WaitLaunch`  | the reload timer has expired                            |
//! | `WaitLaunch`  | `WaitPeak`    | the acceleration's magnitude is above the threshold     |
//! | `WaitPeak`    | `WaitLanding` | in flight for over a second and the altitude is falling |
//! | `WaitLanding` | `Reload`      | in flight for over five seconds and the altitude rests  |
//!
//! The magnitude is the sum of the absolute readings along the three axes.

use crate::phase::Phase;
use crate::rocket::{FlagsView, Rocket, RocketView};
use crate::telemetry::{window_of, LogEntry};
use crate::timer::{elapsed_nanos, nanos_between};
use crate::trend::{
    average_below, average_level, average_slope_below, average_slope_level, lemma_level_trend,
    lemma_linear_trend, level, linear, slope_sum,
};
use std::time::Instant;
use vstd::math::abs;
use vstd::prelude::*;

verus! {

/// The magnitude, in thousandths of g, above which the vehicle has launched.
pub const LAUNCH_THRESHOLD: i64 = 3000;

/// The number of entries over which the apogee is looked for.
pub const APOGEE_WINDOW: usize = 100;

/// The average slope, in thousandths of an altitude unit per second, below which the
/// vehicle is past its apogee.
pub const APOGEE_RATE: i64 = -500;

/// Nanoseconds of flight that must have passed before the apogee is looked for.
pub const APOGEE_DELAY: u128 = 1_000_000_000;

/// The number of entries over which the touchdown is looked for.
pub const TOUCHDOWN_WINDOW: usize = 20;

/// Nanoseconds of flight that must have passed before the touchdown is looked for.
pub const TOUCHDOWN_DELAY: u128 = 5_000_000_000;

/// The magnitude of an acceleration: the sum of its absolute components.
pub open spec fn magnitude(accel: (i32, i32, i32)) -> nat {
    abs(accel.0 as int) + abs(accel.1 as int) + abs(accel.2 as int)
}

/// The acceleration is that of a launch.
pub open spec fn launch_detected(accel: (i32, i32, i32)) -> bool {
    magnitude(accel) > LAUNCH_THRESHOLD
}

/// The log holds more than a window and over its newest [`APOGEE_WINDOW`] entries the
/// altitude falls faster than [`APOGEE_RATE`] on average.
pub open spec fn apogee_detected(log: Seq<LogEntry>) -> bool {
    &&& log.len() > APOGEE_WINDOW
    &&& average_below(
        window_of(log, APOGEE_WINDOW as nat),
        APOGEE_WINDOW as nat,
        APOGEE_RATE as int,
    )
}

/// The log holds more than a window and over its newest [`TOUCHDOWN_WINDOW`] entries
/// the average slope of the altitude is exactly zero.
pub open spec fn touchdown_detected(log: Seq<LogEntry>) -> bool {
    &&& log.len() > TOUCHDOWN_WINDOW
    &&& average_level(window_of(log, TOUCHDOWN_WINDOW as nat))
}

/// The flight marker set at launch: the index of the newest entry, or 0 where the log
/// is still empty, so that every entry of the flight lies at or after it.
pub open spec fn marker_for(log: Seq<LogEntry>) -> usize {
    if log.len() > 0 {
        (log.len() - 1) as usize
    } else {
        0
    }
}

impl RocketView {
    /// The flight has begun and more than `delay` nanoseconds of it have passed.
    pub open spec fn in_flight_for(self, now: Instant, delay: nat) -> bool {
        self.start_met matches Some(launch) && elapsed_nanos(now, launch) > delay
    }

    /// The phase that follows from the current one at `now`.
    pub open spec fn next_phase(self, now: Instant) -> Phase {
        match self.current_status {
            Phase::Reload => if self.flags.landing_reset.expired(now) {
                Phase::WaitLaunch
            } else {
                Phase::Reload
            },
            Phase::WaitLaunch => if launch_detected(self.current_accel) {
                Phase::WaitPeak
            } else {
                Phase::WaitLaunch
            },
            Phase::WaitPeak => if self.in_flight_for(now, APOGEE_DELAY as nat) && apogee_detected(
                self.log,
            ) {
                Phase::WaitLanding
            } else {
                Phase::WaitPeak
            },
            Phase::WaitLanding => if self.in_flight_for(now, TOUCHDOWN_DELAY as nat)
                && touchdown_detected(self.log) {
                Phase::Reload
            } else {
                Phase::WaitLanding
            },
        }
    }

    /// The controller after its transition rule was looked at. Where the phase
    /// changes, its entry actions become due, and leaving `WaitLaunch` sets the flight
    /// marker. Nothing else changes.
    pub open spec fn transitioned(self, now: Instant) -> RocketView {
        let next = self.next_phase(now);
        if next == self.current_status {
            self
        } else {
            RocketView {
                current_status: next,
                log_start_index: if self.current_status == Phase::WaitLaunch {
                    Some(marker_for(self.log))
                } else {
                    self.log_start_index
                },
                flags: FlagsView { status_change: true, ..self.flags },
                ..self
            }
        }
    }
}

/// Computes the magnitude of an acceleration.
pub fn magnitude_of(accel: (i32, i32, i32)) -> (sum: i64)
    ensures
        sum == magnitude(accel),
{
    let x = accel.0 as i64;
    let y = accel.1 as i64;
    let z = accel.2 as i64;
    let ax = if x < 0 { -x } else { x };
    let ay = if y < 0 { -y } else { y };
    let az = if z < 0 { -z } else { z };
    ax + ay + az
}

impl Rocket {
    /// Whether the flight began more than `delay` nanoseconds before `now`.
    pub fn in_flight_for(&self, now: Instant, delay: u128) -> (passed: bool)
        ensures
            passed == self@.in_flight_for(now, delay as nat),
    {
        match self.start_met {
            Some(launch) => nanos_between(now, launch) > delay,
            None => false,
        }
    }

    /// Whether the log shows the vehicle past its apogee.
    pub fn apogee_detected(&self) -> (detected: bool)
        ensures
            detected == apogee_detected(self@.log),
    {
        if self.log.len() > APOGEE_WINDOW {
            let window = self.log.window(APOGEE_WINDOW);
            average_slope_below(&window, APOGEE_WINDOW, APOGEE_RATE)
        } else {
            false
        }
    }

    /// Whether the log shows the vehicle at rest.
    pub fn touchdown_detected(&self) -> (detected: bool)
        ensures
            detected == touchdown_detected(self@.log),
    {
        if self.log.len() > TOUCHDOWN_WINDOW {
            let window = self.log.window(TOUCHDOWN_WINDOW);
            average_slope_level(&window)
        } else {
            false
        }
    }

    /// Looks at the current phase's transition rule at `now`, once, and changes the
    /// phase where it holds.
    pub fn transition_at(&mut self, now: Instant)
        ensures
            final(self)@ == old(self)@.transitioned(now),
    {
        match self.current_status {
            Phase::Reload => {
                if self.flags.landing_reset.expired_at(now) {
                    self.current_status = Phase::WaitLaunch;
                    self.flags.status_change = true;
                }
            },
            Phase::WaitLaunch => {
                if magnitude_of(self.current_accel) > LAUNCH_THRESHOLD {
                    let len = self.log.len();
                    self.current_status = Phase::WaitPeak;
                    self.flags.status_change = true;
                    self.log_start_index = Some(if len > 0 { len - 1 } else { 0 });
                }
            },
            Phase::WaitPeak => {
                if self.in_flight_for(now, APOGEE_DELAY) && self.apogee_detected() {
                    self.current_status = Phase::WaitLanding;
                    self.flags.status_change = true;
                }
            },
            Phase::WaitLanding => {
                if self.in_flight_for(now, TOUCHDOWN_DELAY) && self.touchdown_detected() {
                    self.current_status = Phase::Reload;
                    self.flags.status_change = true;
                }
            },
        }
    }

    /// Looks at the current phase's transition rule at the current reading of the
    /// monotonic clock.
    pub fn transition(&mut self)
        ensures
            exists|now: Instant| final(self)@ == old(self)@.transitioned(now),
    {
        self.transition_at(Instant::now());
    }
}

/// On the pad the phase changes exactly when the acceleration's magnitude is above
/// the threshold. It then becomes `WaitPeak`, the entry actions become due, and the
/// flight marker is the index of the newest entry. Until then nothing changes.
pub proof fn lemma_launch_rule(rocket: RocketView, now: Instant)
    requires
        rocket.current_status == Phase::WaitLaunch,
    ensures
        launch_detected(rocket.current_accel) ==> {
            &&& rocket.transitioned(now).current_status == Phase::WaitPeak
            &&& rocket.transitioned(now).flags.status_change
            &&& rocket.transitioned(now).log_start_index == Some(marker_for(rocket.log))
            &&& rocket.transitioned(now).log == rocket.log
        },
        !launch_detected(rocket.current_accel) ==> rocket.transitioned(now) == rocket,
        rocket.log.len() > 0 && rocket.log.len() <= usize::MAX ==> marker_for(rocket.log)
            == rocket.log.len() - 1,
{
}

/// In `WaitPeak` the phase changes exactly when more than [`APOGEE_DELAY`] of flight
/// has passed, the log holds more than [`APOGEE_WINDOW`] entries, and over the newest
/// of them the altitude falls faster than [`APOGEE_RATE`] on average. It then becomes
/// `WaitLanding`; on every tick before that nothing changes.
pub proof fn lemma_apogee_rule(rocket: RocketView, now: Instant)
    requires
        rocket.current_status == Phase::WaitPeak,
    ensures
        rocket.transitioned(now).current_status == Phase::WaitLanding <==> {
            &&& rocket.in_flight_for(now, APOGEE_DELAY as nat)
            &&& rocket.log.len() > APOGEE_WINDOW
            &&& slope_sum(window_of(rocket.log, APOGEE_WINDOW as nat)) < APOGEE_RATE
                * APOGEE_WINDOW
        },
        rocket.transitioned(now).current_status != Phase::WaitLanding ==> rocket.transitioned(now)
            == rocket,
        rocket.transitioned(now).log == rocket.log,
        rocket.transitioned(now).log_start_index == rocket.log_start_index,
{
}

/// Where the altitude over the newest [`APOGEE_WINDOW`] entries changes at one exact
/// rate, however unevenly they are spaced, the slopes sum to the rate times the number
/// of pairs, one less than the window's size. The apogee shows exactly when that sum
/// over the size lies below [`APOGEE_RATE`].
pub proof fn lemma_linear_apogee(log: Seq<LogEntry>, rate: int)
    requires
        log.len() > APOGEE_WINDOW,
        linear(window_of(log, APOGEE_WINDOW as nat), rate),
    ensures
        slope_sum(window_of(log, APOGEE_WINDOW as nat)) == rate * (APOGEE_WINDOW - 1),
        apogee_detected(log) <==> rate * (APOGEE_WINDOW - 1) < APOGEE_RATE * APOGEE_WINDOW,
{
    lemma_linear_trend(window_of(log, APOGEE_WINDOW as nat), rate);
}

/// In `WaitLanding` the phase changes exactly when more than [`TOUCHDOWN_DELAY`] of
/// flight has passed, the log holds more than [`TOUCHDOWN_WINDOW`] entries, and the
/// slopes over the newest of them sum to zero. It then becomes `Reload`; with any other
/// sum nothing changes. Entries that all hold one altitude always sum to zero.
pub proof fn lemma_touchdown_rule(rocket: RocketView, now: Instant)
    requires
        rocket.current_status == Phase::WaitLanding,
    ensures
        rocket.transitioned(now).current_status == Phase::Reload <==> {
            &&& rocket.in_flight_for(now, TOUCHDOWN_DELAY as nat)
            &&& rocket.log.len() > TOUCHDOWN_WINDOW
            &&& slope_sum(window_of(rocket.log, TOUCHDOWN_WINDOW as nat)) == 0
        },
        rocket.transitioned(now).current_status != Phase::Reload ==> rocket.transitioned(now)
            == rocket,
        rocket.in_flight_for(now, TOUCHDOWN_DELAY as nat) && rocket.log.len() > TOUCHDOWN_WINDOW
            && level(window_of(rocket.log, TOUCHDOWN_WINDOW as nat)) ==> rocket.transitioned(
            now,
        ).current_status == Phase::Reload,
{
    if level(window_of(rocket.log, TOUCHDOWN_WINDOW as nat)) {
        lemma_level_trend(window_of(rocket.log, TOUCHDOWN_WINDOW as nat));
    }
}

/// In `Reload` the phase changes exactly when the reload timer has expired, and then
/// becomes `WaitLaunch`.
pub proof fn lemma_reload_rule(rocket: RocketView, now: Instant)
    requires
        rocket.current_status == Phase::Reload,
    ensures
        rocket.transitioned(now).current_status == Phase::WaitLaunch
            <==> rocket.flags.landing_reset.expired(now),
        !rocket.flags.landing_reset.expired(now) ==> rocket.transitioned(now) == rocket,
{
}

} // verus!
