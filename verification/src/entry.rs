//! The actions that run once when a phase is entered.
//!
//! A transition only marks the new phase as entered. At the start of the next tick the
//! controller brings its own state in line with the phase and names what has to happen
//! outside of it: which log entries to persist, how to set the recovery actuator,
//! whether to take a photograph, and which lights to show. The state changes whether
//! or not any of that then succeeds.

use crate::phase::{LedPattern, Phase};
use crate::rocket::{
    timer_micros, timer_millis, timer_secs, FlagsView, Rocket, RocketView, ACCEL_FREQ, ALT_FREQ,
    RELOAD_TIMEOUT,
};
use crate::telemetry::{entries_from, LogEntry};
use crate::timer::Timer;
use std::time::{Duration, Instant};
use vstd::prelude::*;

verus! {

/// What has to happen outside the controller on entering a phase.
#[derive(Debug)]
pub struct EntryActions {
    /// The phase that was entered, or `None` where no entry was due.
    pub entered: Option<Phase>,
    /// The entries to append to the session log, oldest first.
    pub session_log: Option<Vec<LogEntry>>,
    /// The entries to append to the recovery snapshot, oldest first.
    pub recovery_log: Option<Vec<LogEntry>>,
    /// The level to set the recovery actuator to: `true` releases, `false` is idle.
    pub actuator: Option<bool>,
    /// Whether to take one photograph.
    pub capture_photo: bool,
    /// The lights to show.
    pub indicator: Option<LedPattern>,
}

/// [`EntryActions`] as specifications see them.
pub struct EntryActionsView {
    pub entered: Option<Phase>,
    pub session_log: Option<Seq<LogEntry>>,
    pub recovery_log: Option<Seq<LogEntry>>,
    pub actuator: Option<bool>,
    pub capture_photo: bool,
    pub indicator: Option<LedPattern>,
}

/// The entries held by an optional vector.
pub open spec fn entries_view(entries: Option<Vec<LogEntry>>) -> Option<Seq<LogEntry>> {
    match entries {
        Some(v) => Some(v@),
        None => None,
    }
}

impl View for EntryActions {
    type V = EntryActionsView;

    open spec fn view(&self) -> EntryActionsView {
        EntryActionsView {
            entered: self.entered,
            session_log: entries_view(self.session_log),
            recovery_log: entries_view(self.recovery_log),
            actuator: self.actuator,
            capture_photo: self.capture_photo,
            indicator: self.indicator,
        }
    }
}

impl EntryActionsView {
    /// Nothing is to be done.
    pub open spec fn none() -> EntryActionsView {
        EntryActionsView {
            entered: None,
            session_log: None,
            recovery_log: None,
            actuator: None,
            capture_photo: false,
            indicator: None,
        }
    }
}

impl RocketView {
    /// The controller after the entry actions that were due at `now` have run.
    ///
    /// - `Reload`: the log and the flight marker are cleared, mission-elapsed time
    ///   starts anew at `now`, the flight's start is forgotten, and the reload timer
    ///   is armed for [`RELOAD_TIMEOUT`].
    /// - `WaitLaunch`: the acceleration and altitude timers are armed, each for its
    ///   own cadence.
    /// - `WaitPeak`: the flight starts at `now`.
    /// - `WaitLanding`: the state stays as it is.
    ///
    /// In each case the entry is no longer due afterwards.
    pub open spec fn entered(self, now: Instant) -> RocketView {
        let flags = FlagsView { status_change: false, ..self.flags };
        if !self.flags.status_change {
            self
        } else {
            match self.current_status {
                Phase::Reload => RocketView {
                    start_met: None,
                    current_met: now,
                    log: Seq::empty(),
                    log_start_index: None,
                    flags: FlagsView { landing_reset: timer_secs(now, RELOAD_TIMEOUT), ..flags },
                    ..self
                },
                Phase::WaitLaunch => RocketView {
                    flags: FlagsView {
                        new_alt: timer_millis(now, ALT_FREQ),
                        new_accel: timer_micros(now, ACCEL_FREQ),
                        ..flags
                    },
                    ..self
                },
                Phase::WaitPeak => RocketView { start_met: Some(now), flags, ..self },
                Phase::WaitLanding => RocketView { flags, ..self },
            }
        }
    }

    /// The entries that go to the session log: on entering `Reload` after a flight,
    /// those at or after the flight marker, and no others.
    pub open spec fn session_entries(self) -> Option<Seq<LogEntry>> {
        if self.flags.status_change && self.current_status == Phase::Reload {
            match self.log_start_index {
                Some(marker) => Some(entries_from(self.log, marker as nat)),
                None => None,
            }
        } else {
            None
        }
    }

    /// The entries that go to the recovery snapshot: on entering `WaitLanding`, the
    /// whole log.
    pub open spec fn recovery_entries(self) -> Option<Seq<LogEntry>> {
        if self.flags.status_change && self.current_status == Phase::WaitLanding {
            Some(self.log)
        } else {
            None
        }
    }

    /// What has to happen outside the controller for the entry that is due.
    ///
    /// The recovery actuator is released on entering `WaitLanding` and set back to
    /// idle on entering `Reload`. One photograph is taken on entering `WaitLanding`.
    /// The lights are set on every entry.
    pub open spec fn entry_actions(self) -> EntryActionsView {
        if !self.flags.status_change {
            EntryActionsView::none()
        } else {
            EntryActionsView {
                entered: Some(self.current_status),
                session_log: self.session_entries(),
                recovery_log: self.recovery_entries(),
                actuator: match self.current_status {
                    Phase::Reload => Some(false),
                    Phase::WaitLanding => Some(true),
                    _ => None,
                },
                capture_photo: self.current_status == Phase::WaitLanding,
                indicator: Some(self.current_status.led_spec()),
            }
        }
    }
}

impl Rocket {
    /// Runs the entry actions of the current phase at `now` if they are due, and
    /// names what has to happen outside the controller.
    pub fn enter_phase_at(&mut self, now: Instant) -> (actions: EntryActions)
        ensures
            final(self)@ == old(self)@.entered(now),
            actions@ == old(self)@.entry_actions(),
    {
        let mut actions = EntryActions {
            entered: None,
            session_log: None,
            recovery_log: None,
            actuator: None,
            capture_photo: false,
            indicator: None,
        };
        if !self.flags.status_change {
            return actions;
        }
        actions.entered = Some(self.current_status);
        actions.indicator = Some(self.set_led());
        match self.current_status {
            Phase::Reload => {
                if let Some(log_start_index) = self.log_start_index {
                    actions.session_log = Some(self.log.since(log_start_index));
                }
                self.log.clear();
                self.log_start_index = None;
                self.current_met = now;
                actions.actuator = Some(false);
                self.flags.landing_reset = Timer::starting_at(
                    now,
                    Duration::from_secs(RELOAD_TIMEOUT),
                );
                self.start_met = None;
            },
            Phase::WaitLaunch => {
                self.flags.new_alt = Timer::starting_at(now, Duration::from_millis(ALT_FREQ));
                self.flags.new_accel = Timer::starting_at(now, Duration::from_micros(ACCEL_FREQ));
            },
            Phase::WaitPeak => {
                self.start_met = Some(now);
            },
            Phase::WaitLanding => {
                actions.actuator = Some(true);
                actions.capture_photo = true;
                let whole = self.log.since(0);
                assert(whole@ =~= self@.log);
                actions.recovery_log = Some(whole);
            },
        }
        self.flags.status_change = false;
        actions
    }

    /// Runs the entry actions that are due at the current reading of the monotonic
    /// clock.
    pub fn enter_phase(&mut self) -> (actions: EntryActions)
        ensures
            exists|now: Instant| final(self)@ == old(self)@.entered(now),
            actions@ == old(self)@.entry_actions(),
    {
        self.enter_phase_at(Instant::now())
    }
}

/// What is persisted on entering a phase.
///
/// The session log is written on entering `Reload` after a flight and at no other
/// time. It then gets the entries at or after the flight marker, in the log's order,
/// and none from before it. The recovery snapshot is written on entering
/// `WaitLanding` and at no other time, and gets the whole log.
pub proof fn lemma_persistence_selection(rocket: RocketView)
    ensures
        rocket.session_entries() is Some <==> rocket.flags.status_change && rocket.current_status
            == Phase::Reload && rocket.log_start_index is Some,
        rocket.session_entries() matches Some(written) ==> rocket.log_start_index matches Some(
            marker,
        ) && {
            &&& written.len() == if marker <= rocket.log.len() {
                rocket.log.len() - marker
            } else {
                0
            }
            &&& forall|i: int|
                marker <= i < rocket.log.len() ==> written[i - marker] == #[trigger] rocket.log[i]
        },
        rocket.recovery_entries() is Some <==> rocket.flags.status_change && rocket.current_status
            == Phase::WaitLanding,
        rocket.recovery_entries() matches Some(written) ==> written == rocket.log,
        rocket.entry_actions().session_log == if rocket.flags.status_change {
            rocket.session_entries()
        } else {
            None
        },
        rocket.entry_actions().recovery_log == if rocket.flags.status_change {
            rocket.recovery_entries()
        } else {
            None
        },
{
}

} // verus!
