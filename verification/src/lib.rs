//! Flight-phase controller for a model-rocket avionics unit.
//!
//! The controller samples acceleration and altitude, decides when the vehicle has
//! launched, passed its apogee and landed, and keeps a time-stamped log of what it saw.
//! It touches no hardware: it names the sensor operation that is due and what has to
//! happen on entering a phase, and takes the readings as values.
//!
//! - [`timer`]: a polled expiry timer on the monotonic clock.
//! - [`phase`]: the four flight phases.
//! - [`telemetry`]: the log, bounded while the vehicle waits on the pad.
//! - [`trend`]: the average slope of the altitude over a trailing window.
//! - [`sensor`]: the operations asked of the sensors and their replies.
//! - [`rocket`]: the controller's state.
//! - [`entry`]: what happens once when a phase is entered.
//! - [`doing`]: sampling on the two cadences.
//! - [`transition`]: the rule that leads from each phase to the next.
//! - [`line`]: the text form of a log entry.
//!
//! Readings are fixed-point integers: altitudes in thousandths of an altitude unit,
//! accelerations in thousandths of g, times in nanoseconds.

pub mod doing;
pub mod entry;
pub mod line;
pub mod phase;
pub mod rocket;
pub mod sensor;
pub mod telemetry;
pub mod timer;
pub mod transition;
pub mod trend;
