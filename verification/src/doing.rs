//! Sampling: which sensor operation is due, and what a reply does to the state.
//!
//! In `Reload` nothing is sampled. In every other phase the acceleration is read each
//! time its timer expires. Once the vehicle has left the pad the altitude is read as
//! well, in two steps, because a conversion takes time: when the altitude timer expires
//! a conversion is started, and on every tick while one is under way the sensor is
//! asked whether it has finished, and the value is fetched once it has. Each reading
//! that arrives is stored and logged, so one tick appends no, one or two entries.
//!
//! A tick's sampling starts with [`Rocket::doing`] and goes on with
//! [`Rocket::sensor_reply`] for as long as either names a next operation.

use crate::phase::Phase;
use crate::rocket::{
    timer_micros, timer_millis, FlagsView, Rocket, RocketView, ACCEL_FREQ, ALT_FREQ,
};
use crate::sensor::{fault_of, SampleStep, SensorCommand, SensorReply};
use crate::telemetry::appended;
use crate::timer::Timer;
use std::time::{Duration, Instant};
use vstd::prelude::*;

verus! {

impl RocketView {
    /// The operation, if any, with which the altitude part of a tick begins at `now`.
    pub open spec fn altitude_step(self, now: Instant) -> Option<SensorCommand> {
        if !self.current_status.samples_altitude() {
            None
        } else if self.flags.new_alt.expired(now) {
            Some(SensorCommand::StartAltitudeConversion)
        } else {
            self.poll_step()
        }
    }

    /// The sensor is asked for a finished conversion while one is under way.
    pub open spec fn poll_step(self) -> Option<SensorCommand> {
        if self.current_status.samples_altitude() && self.flags.waiting_for_alt {
            Some(SensorCommand::PollAltitudeReady)
        } else {
            None
        }
    }

    /// The operation, if any, with which a tick's sampling begins at `now`.
    pub open spec fn first_step(self, now: Instant) -> Option<SensorCommand> {
        if !self.current_status.samples_acceleration() {
            None
        } else if self.flags.new_accel.expired(now) {
            Some(SensorCommand::ReadAcceleration)
        } else {
            self.altitude_step(now)
        }
    }

    /// The controller after a tick's sampling has begun at `now`: the first operation
    /// waits for its reply.
    pub open spec fn sampling_begun(self, now: Instant) -> RocketView {
        RocketView { pending: self.first_step(now), ..self }
    }

    /// The controller after the acceleration `(x, y, z)` arrived at `now`: it is
    /// stored and logged, and the acceleration timer is armed anew.
    pub open spec fn with_acceleration(self, x: i32, y: i32, z: i32, now: Instant) -> RocketView {
        RocketView {
            current_accel: (x, y, z),
            flags: FlagsView { new_accel: timer_micros(now, ACCEL_FREQ), ..self.flags },
            ..self
        }.logged(now)
    }

    /// The controller after an altitude conversion was started at `now`: one is under
    /// way, and the altitude timer is armed anew.
    pub open spec fn with_conversion(self, now: Instant) -> RocketView {
        RocketView {
            flags: FlagsView {
                waiting_for_alt: true,
                new_alt: timer_millis(now, ALT_FREQ),
                ..self.flags
            },
            ..self
        }
    }

    /// The controller after the altitude arrived at `now`: no conversion is under way
    /// any more, and the altitude is stored and logged.
    pub open spec fn with_altitude(self, altitude: i32, now: Instant) -> RocketView {
        RocketView {
            current_alt: altitude,
            flags: FlagsView { waiting_for_alt: false, ..self.flags },
            ..self
        }.logged(now)
    }

    /// The controller after `reply` was handed to it at `now`.
    ///
    /// With nothing waiting the reply is dropped. A reply that does not answer the
    /// waiting operation leaves readings, log, flags and timers as they are, so the
    /// operation is due again on the next tick. Either way the tick's sampling goes on
    /// with what follows the waiting operation.
    pub open spec fn replied(self, reply: SensorReply, now: Instant) -> RocketView {
        match self.pending {
            None => self,
            Some(SensorCommand::ReadAcceleration) => {
                let sampled = match reply {
                    SensorReply::Acceleration(x, y, z) => self.with_acceleration(x, y, z, now),
                    _ => self,
                };
                RocketView { pending: sampled.altitude_step(now), ..sampled }
            },
            Some(SensorCommand::StartAltitudeConversion) => {
                let started = match reply {
                    SensorReply::ConversionStarted => self.with_conversion(now),
                    _ => self,
                };
                RocketView { pending: started.poll_step(), ..started }
            },
            Some(SensorCommand::PollAltitudeReady) => {
                let next = match reply {
                    SensorReply::ConversionReady(true) => Some(SensorCommand::ReadAltitude),
                    _ => None,
                };
                RocketView { pending: next, ..self }
            },
            Some(SensorCommand::ReadAltitude) => {
                let sampled = match reply {
                    SensorReply::Altitude(altitude) => self.with_altitude(altitude, now),
                    _ => self,
                };
                RocketView { pending: None, ..sampled }
            },
        }
    }
}

impl Rocket {
    fn poll_step(&self) -> (step: Option<SensorCommand>)
        ensures
            step == self@.poll_step(),
    {
        if matches!(self.current_status, Phase::WaitPeak | Phase::WaitLanding)
            && self.flags.waiting_for_alt {
            Some(SensorCommand::PollAltitudeReady)
        } else {
            None
        }
    }

    fn altitude_step(&self, now: Instant) -> (step: Option<SensorCommand>)
        ensures
            step == self@.altitude_step(now),
    {
        if !matches!(self.current_status, Phase::WaitPeak | Phase::WaitLanding) {
            None
        } else if self.flags.new_alt.expired_at(now) {
            Some(SensorCommand::StartAltitudeConversion)
        } else {
            self.poll_step()
        }
    }

    /// Begins a tick's sampling at `now` and names the first sensor operation that is
    /// due, or `None` where none is.
    pub fn doing_at(&mut self, now: Instant) -> (command: Option<SensorCommand>)
        ensures
            final(self)@ == old(self)@.sampling_begun(now),
            command == old(self)@.first_step(now),
    {
        let command = if matches!(self.current_status, Phase::Reload) {
            None
        } else if self.flags.new_accel.expired_at(now) {
            Some(SensorCommand::ReadAcceleration)
        } else {
            self.altitude_step(now)
        };
        self.pending = command;
        command
    }

    /// Begins a tick's sampling at the current reading of the monotonic clock.
    pub fn doing(&mut self) -> (command: Option<SensorCommand>)
        ensures
            exists|now: Instant|
                final(self)@ == old(self)@.sampling_begun(now) && command == old(
                    self,
                )@.first_step(now),
    {
        self.doing_at(Instant::now())
    }

    /// Takes the reply to the waiting sensor operation at `now`, and names the next
    /// operation of this tick and the fault that the reply amounted to.
    pub fn sensor_reply_at(&mut self, reply: SensorReply, now: Instant) -> (step: SampleStep)
        ensures
            final(self)@ == old(self)@.replied(reply, now),
            step.next == final(self)@.pending,
            step.fault == fault_of(old(self)@.pending, reply),
    {
        let fault = match self.pending {
            None => { return SampleStep { next: None, fault: None }; },
            Some(SensorCommand::ReadAcceleration) => {
                let fault = match reply {
                    SensorReply::Acceleration(x, y, z) => {
                        self.current_accel = (x, y, z);
                        self.log_at(now);
                        self.flags.new_accel = Timer::starting_at(
                            now,
                            Duration::from_micros(ACCEL_FREQ),
                        );
                        None
                    },
                    _ => Some(SensorCommand::ReadAcceleration.fault()),
                };
                self.pending = self.altitude_step(now);
                fault
            },
            Some(SensorCommand::StartAltitudeConversion) => {
                let fault = match reply {
                    SensorReply::ConversionStarted => {
                        self.flags.waiting_for_alt = true;
                        self.flags.new_alt = Timer::starting_at(
                            now,
                            Duration::from_millis(ALT_FREQ),
                        );
                        None
                    },
                    _ => Some(SensorCommand::StartAltitudeConversion.fault()),
                };
                self.pending = self.poll_step();
                fault
            },
            Some(SensorCommand::PollAltitudeReady) => {
                match reply {
                    SensorReply::ConversionReady(ready) => {
                        self.pending = if ready {
                            Some(SensorCommand::ReadAltitude)
                        } else {
                            None
                        };
                        None
                    },
                    _ => {
                        self.pending = None;
                        Some(SensorCommand::PollAltitudeReady.fault())
                    },
                }
            },
            Some(SensorCommand::ReadAltitude) => {
                let fault = match reply {
                    SensorReply::Altitude(altitude) => {
                        self.current_alt = altitude;
                        self.flags.waiting_for_alt = false;
                        self.log_at(now);
                        None
                    },
                    _ => Some(SensorCommand::ReadAltitude.fault()),
                };
                self.pending = None;
                fault
            },
        };
        SampleStep { next: self.pending, fault }
    }

    /// Takes the reply to the waiting sensor operation at the current reading of the
    /// monotonic clock.
    pub fn sensor_reply(&mut self, reply: SensorReply) -> (step: SampleStep)
        ensures
            exists|now: Instant| final(self)@ == old(self)@.replied(reply, now),
            step.next == final(self)@.pending,
            step.fault == fault_of(old(self)@.pending, reply),
    {
        self.sensor_reply_at(reply, Instant::now())
    }
}

/// Which operations a phase asks for. In `Reload` a tick's sampling ends before it
/// begins, and on the pad it ends with the acceleration: the altitude is not read before
/// the vehicle has left it.
pub proof fn lemma_sampling_by_phase(rocket: RocketView, reply: SensorReply, now: Instant)
    ensures
        rocket.current_status == Phase::Reload ==> rocket.first_step(now) is None,
        rocket.current_status == Phase::WaitLaunch && rocket.flags.new_accel.expired(now)
            ==> rocket.first_step(now) == Some(SensorCommand::ReadAcceleration),
        rocket.current_status == Phase::WaitLaunch && !rocket.flags.new_accel.expired(now)
            ==> rocket.first_step(now) is None,
        rocket.current_status == Phase::WaitLaunch && rocket.pending == Some(
            SensorCommand::ReadAcceleration,
        ) ==> rocket.replied(reply, now).pending is None,
{
}

/// A tick's sampling comes to an end, and appends two entries at most.
///
/// Each reply moves on to an operation that lies later in the tick or ends the
/// sampling, so no tick asks for more than four operations. A reply appends one entry
/// where it brings a reading and none where it does not. A reply that amounts to a
/// fault changes nothing but the operation that is waiting, and no reply changes the
/// phase, the flight marker, the start of the flight or the origin of mission-elapsed
/// time.
pub proof fn lemma_sampling_advances(rocket: RocketView, reply: SensorReply, now: Instant)
    ensures
        ({
            let after = rocket.replied(reply, now);
            let fault = fault_of(rocket.pending, reply);
            let reading = reply is Acceleration || reply is Altitude;
            &&& rocket.pending is None ==> after == rocket
            &&& rocket.pending matches Some(waiting) ==> (after.pending matches Some(next)
                ==> waiting.order() < next.order())
            &&& rocket.pending is Some && fault is None && reading ==> after.log == appended(
                rocket.log,
                after.sample_at(now),
            )
            &&& rocket.pending is None || fault is Some || !reading ==> after.log == rocket.log
            &&& fault is Some ==> after == (RocketView { pending: after.pending, ..rocket })
            &&& after.current_status == rocket.current_status
            &&& after.log_start_index == rocket.log_start_index
            &&& after.start_met == rocket.start_met
            &&& after.current_met == rocket.current_met
        }),
{
}

} // verus!
