//! The flight phases and what each one shows on the indicator lights.

use vstd::prelude::*;

verus! {

/// The four phases of one flight cycle.
#[derive(Debug, Clone, Copy, PartialEq, Eq, Structural)]
pub enum Phase {
    /// On the ground between flights; nothing is sampled.
    Reload,
    /// Armed on the pad, watching the acceleration for a launch.
    WaitLaunch,
    /// In flight, watching the altitude trend for the apogee.
    WaitPeak,
    /// Descending, watching the altitude trend for the touchdown.
    WaitLanding,
}

/// Which of the three indicator lights are lit.
#[derive(Debug, Clone, Copy, PartialEq, Eq, Structural)]
pub struct LedPattern {
    pub red: bool,
    pub green: bool,
    pub blue: bool,
}

impl Phase {
    /// The phase's name as it is written in a telemetry line.
    pub open spec fn name_spec(self) -> Seq<char> {
        match self {
            Phase::Reload => "Reload"@,
            Phase::WaitLaunch => "WaitLaunch"@,
            Phase::WaitPeak => "WaitPeak"@,
            Phase::WaitLanding => "WaitLanding"@,
        }
    }

    /// The lights shown in this phase.
    pub open spec fn led_spec(self) -> LedPattern {
        match self {
            Phase::Reload => LedPattern { red: true, green: false, blue: true },
            Phase::WaitLaunch => LedPattern { red: false, green: true, blue: true },
            Phase::WaitPeak => LedPattern { red: false, green: true, blue: false },
            Phase::WaitLanding => LedPattern { red: true, green: true, blue: false },
        }
    }

    /// Samples are taken in every phase but `Reload`.
    pub open spec fn samples_acceleration(self) -> bool {
        self != Phase::Reload
    }

    /// The altitude is read only once the vehicle has left the pad.
    pub open spec fn samples_altitude(self) -> bool {
        self == Phase::WaitPeak || self == Phase::WaitLanding
    }

    /// The phase's name as it is written in a telemetry line.
    pub fn name(&self) -> (name: &'static str)
        ensures
            name@ == self.name_spec(),
    {
        match self {
            Phase::Reload => "Reload",
            Phase::WaitLaunch => "WaitLaunch",
            Phase::WaitPeak => "WaitPeak",
            Phase::WaitLanding => "WaitLanding",
        }
    }

    /// The lights shown in this phase.
    pub fn led(&self) -> (pattern: LedPattern)
        ensures
            pattern == self.led_spec(),
    {
        match self {
            Phase::Reload => LedPattern { red: true, green: false, blue: true },
            Phase::WaitLaunch => LedPattern { red: false, green: true, blue: true },
            Phase::WaitPeak => LedPattern { red: false, green: true, blue: false },
            Phase::WaitLanding => LedPattern { red: true, green: true, blue: false },
        }
    }
}

} // verus!
