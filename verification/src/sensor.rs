//! The exchange with the sensors.
//!
//! The controller never touches a sensor. It names the next operation as a
//! [`SensorCommand`], the caller carries it out and hands back a [`SensorReply`]. A reply
//! that is a failure, or that does not answer the command that was waiting, is a
//! [`SensorFault`] of that command: the sample is left out and sampling goes on.

use vstd::prelude::*;

verus! {

/// An operation on a sensor that the controller asks for.
#[derive(Debug, Clone, Copy, PartialEq, Eq, Structural)]
pub enum SensorCommand {
    /// Read the acceleration along the three axes.
    ReadAcceleration,
    /// Start an altitude conversion.
    StartAltitudeConversion,
    /// Ask whether the altitude conversion has finished.
    PollAltitudeReady,
    /// Fetch the converted altitude.
    ReadAltitude,
}

/// What came back from a sensor.
#[derive(Debug, Clone, Copy, PartialEq, Eq, Structural)]
pub enum SensorReply {
    /// The acceleration along x, y and z in thousandths of g.
    Acceleration(i32, i32, i32),
    /// The altitude conversion was started.
    ConversionStarted,
    /// Whether the altitude conversion has finished.
    ConversionReady(bool),
    /// The altitude in thousandths of an altitude unit.
    Altitude(i32),
    /// The operation failed.
    Fault,
}

/// The quantity a sensor measures.
#[derive(Debug, Clone, Copy, PartialEq, Eq, Structural)]
pub enum Signal {
    Acceleration,
    Altitude,
}

/// What was being done with a sensor.
#[derive(Debug, Clone, Copy, PartialEq, Eq, Structural)]
pub enum Operation {
    Read,
    StartConversion,
    PollReady,
}

/// A failed sensor operation.
#[derive(Debug, Clone, Copy, PartialEq, Eq, Structural)]
pub struct SensorFault {
    pub signal: Signal,
    pub operation: Operation,
}

/// The outcome of handing a reply to the controller.
#[derive(Debug, Clone, Copy, PartialEq, Eq, Structural)]
pub struct SampleStep {
    /// The next operation to carry out, or `None` once this tick's sampling is done.
    pub next: Option<SensorCommand>,
    /// The fault that the reply amounted to, if it did.
    pub fault: Option<SensorFault>,
}

impl SensorCommand {
    /// The reply is of the kind that this command is answered with.
    pub open spec fn answered_by(self, reply: SensorReply) -> bool {
        match self {
            SensorCommand::ReadAcceleration => reply is Acceleration,
            SensorCommand::StartAltitudeConversion => reply is ConversionStarted,
            SensorCommand::PollAltitudeReady => reply is ConversionReady,
            SensorCommand::ReadAltitude => reply is Altitude,
        }
    }

    /// The place of this command within a tick: the acceleration is read first, then a
    /// conversion is started, then asked for, then fetched.
    pub open spec fn order(self) -> nat {
        match self {
            SensorCommand::ReadAcceleration => 0,
            SensorCommand::StartAltitudeConversion => 1,
            SensorCommand::PollAltitudeReady => 2,
            SensorCommand::ReadAltitude => 3,
        }
    }

    /// The fault that a failure of this command is reported as.
    pub open spec fn fault_spec(self) -> SensorFault {
        match self {
            SensorCommand::ReadAcceleration => SensorFault {
                signal: Signal::Acceleration,
                operation: Operation::Read,
            },
            SensorCommand::StartAltitudeConversion => SensorFault {
                signal: Signal::Altitude,
                operation: Operation::StartConversion,
            },
            SensorCommand::PollAltitudeReady => SensorFault {
                signal: Signal::Altitude,
                operation: Operation::PollReady,
            },
            SensorCommand::ReadAltitude => SensorFault {
                signal: Signal::Altitude,
                operation: Operation::Read,
            },
        }
    }

    /// The fault that a failure of this command is reported as.
    pub fn fault(&self) -> (fault: SensorFault)
        ensures
            fault == self.fault_spec(),
    {
        match self {
            SensorCommand::ReadAcceleration => SensorFault {
                signal: Signal::Acceleration,
                operation: Operation::Read,
            },
            SensorCommand::StartAltitudeConversion => SensorFault {
                signal: Signal::Altitude,
                operation: Operation::StartConversion,
            },
            SensorCommand::PollAltitudeReady => SensorFault {
                signal: Signal::Altitude,
                operation: Operation::PollReady,
            },
            SensorCommand::ReadAltitude => SensorFault {
                signal: Signal::Altitude,
                operation: Operation::Read,
            },
        }
    }
}

/// The fault, if any, that `reply` amounts to while `pending` waits for its answer:
/// that of the waiting command unless the reply answers it. With nothing waiting there
/// is nothing to fail.
pub open spec fn fault_of(pending: Option<SensorCommand>, reply: SensorReply) -> Option<
    SensorFault,
> {
    match pending {
        Some(command) => if command.answered_by(reply) {
            None
        } else {
            Some(command.fault_spec())
        },
        None => None,
    }
}

} // verus!
