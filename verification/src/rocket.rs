//! The controller's state and its view.
//!
//! [`Rocket`] owns everything the controller knows: the phase, the readings last taken,
//! the cadence timers, the telemetry log and the flight marker. Each step of the
//! controller is a function of this state and of one instant of the monotonic clock,
//! stated over [`RocketView`]. A step exists twice: the one whose name ends in `_at`
//! takes the instant, the other reads the clock and hands it on.

use crate::phase::{LedPattern, Phase};
use crate::sensor::SensorCommand;
use crate::telemetry::{appended, LogEntry, TelemetryLog};
use crate::timer::{elapsed_nanos, nanos_between, Timer, TimerView};
use std::time::{Duration, Instant};
use vstd::prelude::*;

verus! {

/// Microseconds between two acceleration samples.
pub const ACCEL_FREQ: u64 = 2500;

/// Milliseconds between two altitude conversions.
pub const ALT_FREQ: u64 = 50;

/// Seconds spent in `Reload` before the controller arms itself.
pub const RELOAD_TIMEOUT: u64 = 40;

/// Seconds for which the timers of a controller that was just built are armed.
pub const IDLE_TIMEOUT: u64 = 100;

/// Microseconds for which the control loop rests between two ticks.
pub const TICK_IDLE: u64 = 100;

/// The flags and cadence timers of the controller.
#[derive(Debug, Clone, Copy)]
pub struct RocketFlags {
    /// A phase was entered and its entry actions have not run yet.
    pub status_change: bool,
    /// Expires when the next altitude conversion is due.
    pub new_alt: Timer,
    /// An altitude conversion was started and its value has not been fetched.
    pub waiting_for_alt: bool,
    /// Expires when the next acceleration sample is due.
    pub new_accel: Timer,
    /// Expires when `Reload` is over.
    pub landing_reset: Timer,
}

/// The controller's state.
#[derive(Debug)]
pub struct Rocket {
    /// The instant the flight began, set on entering `WaitPeak`.
    pub start_met: Option<Instant>,
    /// The current phase.
    pub current_status: Phase,
    /// The origin of mission-elapsed time.
    pub current_met: Instant,
    /// The altitude last read, in thousandths of an altitude unit.
    pub current_alt: i32,
    /// The acceleration last read, in thousandths of g along x, y and z.
    pub current_accel: (i32, i32, i32),
    /// The telemetry log.
    pub log: TelemetryLog,
    /// The flight marker: the index of the first entry that belongs to the flight.
    pub log_start_index: Option<usize>,
    /// Flags and cadence timers.
    pub flags: RocketFlags,
    /// The sensor operation that was asked for and has not been answered.
    pub pending: Option<SensorCommand>,
}

/// [`RocketFlags`] as specifications see them.
pub struct FlagsView {
    pub status_change: bool,
    pub new_alt: TimerView,
    pub waiting_for_alt: bool,
    pub new_accel: TimerView,
    pub landing_reset: TimerView,
}

/// [`Rocket`] as specifications see it.
pub struct RocketView {
    pub start_met: Option<Instant>,
    pub current_status: Phase,
    pub current_met: Instant,
    pub current_alt: i32,
    pub current_accel: (i32, i32, i32),
    pub log: Seq<LogEntry>,
    pub log_start_index: Option<usize>,
    pub flags: FlagsView,
    pub pending: Option<SensorCommand>,
}

impl View for RocketFlags {
    type V = FlagsView;

    open spec fn view(&self) -> FlagsView {
        FlagsView {
            status_change: self.status_change,
            new_alt: self.new_alt@,
            waiting_for_alt: self.waiting_for_alt,
            new_accel: self.new_accel@,
            landing_reset: self.landing_reset@,
        }
    }
}

impl View for Rocket {
    type V = RocketView;

    open spec fn view(&self) -> RocketView {
        RocketView {
            start_met: self.start_met,
            current_status: self.current_status,
            current_met: self.current_met,
            current_alt: self.current_alt,
            current_accel: self.current_accel,
            log: self.log@,
            log_start_index: self.log_start_index,
            flags: self.flags@,
            pending: self.pending,
        }
    }
}

/// A timer armed at `start` for `secs` seconds.
pub open spec fn timer_secs(start: Instant, secs: u64) -> TimerView {
    TimerView { start, target: (secs * 1_000_000_000) as nat }
}

/// A timer armed at `start` for `millis` milliseconds.
pub open spec fn timer_millis(start: Instant, millis: u64) -> TimerView {
    TimerView { start, target: (millis * 1_000_000) as nat }
}

/// A timer armed at `start` for `micros` microseconds.
pub open spec fn timer_micros(start: Instant, micros: u64) -> TimerView {
    TimerView { start, target: (micros * 1_000) as nat }
}

impl RocketView {
    /// The controller as it is built at `now`: in `Reload` with the entry actions still
    /// to run, nothing read, nothing logged, and every timer armed for
    /// [`IDLE_TIMEOUT`].
    pub open spec fn initial(now: Instant) -> RocketView {
        RocketView {
            start_met: None,
            current_status: Phase::Reload,
            current_met: now,
            current_alt: 0,
            current_accel: (0, 0, 0),
            log: Seq::empty(),
            log_start_index: None,
            flags: FlagsView {
                status_change: true,
                new_alt: timer_secs(now, IDLE_TIMEOUT),
                waiting_for_alt: false,
                new_accel: timer_secs(now, IDLE_TIMEOUT),
                landing_reset: timer_secs(now, IDLE_TIMEOUT),
            },
            pending: None,
        }
    }

    /// Mission-elapsed time at `now` in nanoseconds, held at the largest `u64` where
    /// it would not fit.
    pub open spec fn met_at(self, now: Instant) -> u64 {
        let elapsed = elapsed_nanos(now, self.current_met);
        if elapsed > u64::MAX {
            u64::MAX
        } else {
            elapsed as u64
        }
    }

    /// The entry that describes the controller at `now`.
    pub open spec fn sample_at(self, now: Instant) -> LogEntry {
        LogEntry {
            status: self.current_status,
            met: self.met_at(now),
            alt: self.current_alt,
            accel: self.current_accel,
        }
    }

    /// The controller after it logged its state at `now`.
    pub open spec fn logged(self, now: Instant) -> RocketView {
        RocketView { log: appended(self.log, self.sample_at(now)), ..self }
    }
}

impl Rocket {
    /// Builds the controller at the given instant.
    pub fn starting_at(now: Instant) -> (rocket: Rocket)
        ensures
            rocket@ == RocketView::initial(now),
    {
        Rocket {
            start_met: None,
            current_status: Phase::Reload,
            current_met: now,
            current_alt: 0,
            current_accel: (0, 0, 0),
            log: TelemetryLog::new(),
            log_start_index: None,
            flags: RocketFlags {
                status_change: true,
                new_alt: Timer::starting_at(now, Duration::from_secs(IDLE_TIMEOUT)),
                waiting_for_alt: false,
                new_accel: Timer::starting_at(now, Duration::from_secs(IDLE_TIMEOUT)),
                landing_reset: Timer::starting_at(now, Duration::from_secs(IDLE_TIMEOUT)),
            },
            pending: None,
        }
    }

    /// Builds the controller at the current reading of the monotonic clock.
    pub fn new() -> (rocket: Rocket)
        ensures
            exists|now: Instant| rocket@ == RocketView::initial(now),
    {
        Rocket::starting_at(Instant::now())
    }

    /// Mission-elapsed time at `now` in nanoseconds.
    pub fn met_at(&self, now: Instant) -> (met: u64)
        ensures
            met == self@.met_at(now),
    {
        let elapsed = nanos_between(now, self.current_met);
        if elapsed > u64::MAX as u128 {
            u64::MAX
        } else {
            elapsed as u64
        }
    }

    /// Appends an entry that holds the phase, the mission-elapsed time at `now` and
    /// the readings last taken.
    pub fn log_at(&mut self, now: Instant)
        ensures
            final(self)@ == old(self)@.logged(now),
    {
        let log_entry = LogEntry {
            status: self.current_status,
            met: self.met_at(now),
            alt: self.current_alt,
            accel: self.current_accel,
        };
        self.log.append(log_entry);
    }

    /// Appends an entry for the current reading of the monotonic clock.
    pub fn log(&mut self)
        ensures
            exists|now: Instant| final(self)@ == old(self)@.logged(now),
    {
        self.log_at(Instant::now());
    }

    /// The indicator lights for the current phase.
    pub fn set_led(&self) -> (pattern: LedPattern)
        ensures
            pattern == self@.current_status.led_spec(),
    {
        self.current_status.led()
    }
}

} // verus!
