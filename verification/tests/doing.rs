use rocket_avionics::phase::Phase;
use rocket_avionics::rocket::{Rocket, ACCEL_FREQ, ALT_FREQ};
use rocket_avionics::sensor::{
    Operation, SampleStep, SensorCommand, SensorFault, SensorReply, Signal,
};
use rocket_avionics::timer::Timer;
use std::time::{Duration, Instant};

/// A controller in `phase` whose cadence timers were armed at `origin`.
fn armed_rocket(phase: Phase, origin: Instant) -> Rocket {
    let mut rocket = Rocket::starting_at(origin);
    rocket.current_status = phase;
    rocket.flags.status_change = false;
    rocket.flags.new_accel = Timer::starting_at(origin, Duration::from_micros(ACCEL_FREQ));
    rocket.flags.new_alt = Timer::starting_at(origin, Duration::from_millis(ALT_FREQ));
    rocket
}

fn no_fault(next: Option<SensorCommand>) -> SampleStep {
    SampleStep { next, fault: None }
}

#[test]
fn nothing_is_sampled_in_reload() {
    let origin = Instant::now();
    let mut rocket = armed_rocket(Phase::Reload, origin);
    assert_eq!(rocket.doing_at(origin + Duration::from_secs(10)), None);
    assert_eq!(rocket.pending, None);
    assert_eq!(rocket.log.len(), 0);
}

#[test]
fn acceleration_is_read_on_its_cadence() {
    let origin = Instant::now();
    let mut rocket = armed_rocket(Phase::WaitLaunch, origin);
    assert_eq!(rocket.doing_at(origin + Duration::from_micros(2499)), None);
    let due = origin + Duration::from_micros(2500);
    assert_eq!(rocket.doing_at(due), Some(SensorCommand::ReadAcceleration));
    assert_eq!(rocket.pending, Some(SensorCommand::ReadAcceleration));
    let step = rocket.sensor_reply_at(SensorReply::Acceleration(10, -20, 1030), due);
    assert_eq!(step, no_fault(None));
    assert_eq!(rocket.current_accel, (10, -20, 1030));
    assert_eq!(rocket.log.len(), 1);
    let entry = rocket.log.entries()[0];
    assert_eq!(entry.status, Phase::WaitLaunch);
    assert_eq!(entry.met, 2_500_000);
    assert_eq!(entry.alt, 0);
    assert_eq!(entry.accel, (10, -20, 1030));
    // the timer was armed anew at the instant of the reading
    assert_eq!(rocket.doing_at(due + Duration::from_micros(2499)), None);
    assert_eq!(
        rocket.doing_at(due + Duration::from_micros(2500)),
        Some(SensorCommand::ReadAcceleration)
    );
}

#[test]
fn altitude_is_not_read_on_the_pad() {
    let origin = Instant::now();
    let mut rocket = armed_rocket(Phase::WaitLaunch, origin);
    rocket.flags.waiting_for_alt = true;
    let late = origin + Duration::from_secs(1);
    assert_eq!(rocket.doing_at(late), Some(SensorCommand::ReadAcceleration));
    let step = rocket.sensor_reply_at(SensorReply::Acceleration(0, 0, 1000), late);
    assert_eq!(step, no_fault(None));
    assert_eq!(rocket.doing_at(late), None);
}

#[test]
fn altitude_is_read_in_two_steps() {
    let origin = Instant::now();
    for phase in [Phase::WaitPeak, Phase::WaitLanding] {
        let mut rocket = armed_rocket(phase, origin);
        rocket.flags.new_accel = Timer::starting_at(origin, Duration::from_secs(1000));
        assert_eq!(rocket.doing_at(origin + Duration::from_micros(49_999)), None);
        let due = origin + Duration::from_millis(50);
        assert_eq!(rocket.doing_at(due), Some(SensorCommand::StartAltitudeConversion));
        let step = rocket.sensor_reply_at(SensorReply::ConversionStarted, due);
        assert_eq!(step, no_fault(Some(SensorCommand::PollAltitudeReady)));
        assert!(rocket.flags.waiting_for_alt);
        let step = rocket.sensor_reply_at(SensorReply::ConversionReady(false), due);
        assert_eq!(step, no_fault(None));
        assert!(rocket.flags.waiting_for_alt);
        assert_eq!(rocket.log.len(), 0);

        let next_tick = due + Duration::from_micros(100);
        assert_eq!(rocket.doing_at(next_tick), Some(SensorCommand::PollAltitudeReady));
        let step = rocket.sensor_reply_at(SensorReply::ConversionReady(true), next_tick);
        assert_eq!(step, no_fault(Some(SensorCommand::ReadAltitude)));
        let step = rocket.sensor_reply_at(SensorReply::Altitude(104_200), next_tick);
        assert_eq!(step, no_fault(None));
        assert!(!rocket.flags.waiting_for_alt);
        assert_eq!(rocket.current_alt, 104_200);
        assert_eq!(rocket.log.len(), 1);
        assert_eq!(rocket.log.entries()[0].alt, 104_200);
        assert_eq!(rocket.log.entries()[0].met, 50_100_000);
        assert_eq!(rocket.log.entries()[0].status, phase);

        // no conversion is under way, and the next is due 50 ms after the last start
        assert_eq!(rocket.doing_at(due + Duration::from_micros(49_999)), None);
        assert_eq!(
            rocket.doing_at(due + Duration::from_millis(50)),
            Some(SensorCommand::StartAltitudeConversion)
        );
    }
}

#[test]
fn one_tick_can_append_two_entries() {
    let origin = Instant::now();
    let mut rocket = armed_rocket(Phase::WaitPeak, origin);
    rocket.flags.waiting_for_alt = true;
    let now = origin + Duration::from_millis(3);
    assert_eq!(rocket.doing_at(now), Some(SensorCommand::ReadAcceleration));
    let step = rocket.sensor_reply_at(SensorReply::Acceleration(1, 2, 3), now);
    assert_eq!(step, no_fault(Some(SensorCommand::PollAltitudeReady)));
    let step = rocket.sensor_reply_at(SensorReply::ConversionReady(true), now);
    assert_eq!(step, no_fault(Some(SensorCommand::ReadAltitude)));
    let step = rocket.sensor_reply_at(SensorReply::Altitude(77_000), now);
    assert_eq!(step, no_fault(None));
    assert_eq!(rocket.log.len(), 2);
    assert_eq!(rocket.log.entries()[0].accel, (1, 2, 3));
    assert_eq!(rocket.log.entries()[0].alt, 0);
    assert_eq!(rocket.log.entries()[1].accel, (1, 2, 3));
    assert_eq!(rocket.log.entries()[1].alt, 77_000);
}

#[test]
fn a_tick_runs_through_all_four_operations() {
    let origin = Instant::now();
    let mut rocket = armed_rocket(Phase::WaitLanding, origin);
    let now = origin + Duration::from_millis(50);
    assert_eq!(rocket.doing_at(now), Some(SensorCommand::ReadAcceleration));
    let step = rocket.sensor_reply_at(SensorReply::Acceleration(0, 0, 980), now);
    assert_eq!(step, no_fault(Some(SensorCommand::StartAltitudeConversion)));
    let step = rocket.sensor_reply_at(SensorReply::ConversionStarted, now);
    assert_eq!(step, no_fault(Some(SensorCommand::PollAltitudeReady)));
    let step = rocket.sensor_reply_at(SensorReply::ConversionReady(true), now);
    assert_eq!(step, no_fault(Some(SensorCommand::ReadAltitude)));
    let step = rocket.sensor_reply_at(SensorReply::Altitude(-5), now);
    assert_eq!(step, no_fault(None));
    assert_eq!(rocket.log.len(), 2);
    assert_eq!(rocket.pending, None);
}

#[test]
fn a_failed_acceleration_read_skips_the_sample() {
    let origin = Instant::now();
    let mut rocket = armed_rocket(Phase::WaitPeak, origin);
    rocket.current_accel = (7, 8, 9);
    let now = origin + Duration::from_millis(50);
    assert_eq!(rocket.doing_at(now), Some(SensorCommand::ReadAcceleration));
    let step = rocket.sensor_reply_at(SensorReply::Fault, now);
    assert_eq!(
        step.fault,
        Some(SensorFault { signal: Signal::Acceleration, operation: Operation::Read })
    );
    // sampling goes on with the altitude
    assert_eq!(step.next, Some(SensorCommand::StartAltitudeConversion));
    assert_eq!(rocket.current_accel, (7, 8, 9));
    assert_eq!(rocket.log.len(), 0);
    let step = rocket.sensor_reply_at(SensorReply::ConversionStarted, now);
    assert_eq!(step, no_fault(Some(SensorCommand::PollAltitudeReady)));
    rocket.sensor_reply_at(SensorReply::ConversionReady(false), now);
    // the read is due again on the next tick
    assert_eq!(
        rocket.doing_at(now + Duration::from_micros(100)),
        Some(SensorCommand::ReadAcceleration)
    );
}

#[test]
fn a_failed_altitude_operation_skips_the_sample() {
    let origin = Instant::now();
    let now = origin + Duration::from_millis(50);
    let far = Duration::from_secs(1000);

    let mut rocket = armed_rocket(Phase::WaitPeak, origin);
    rocket.flags.new_accel = Timer::starting_at(origin, far);
    assert_eq!(rocket.doing_at(now), Some(SensorCommand::StartAltitudeConversion));
    let step = rocket.sensor_reply_at(SensorReply::Fault, now);
    assert_eq!(
        step,
        SampleStep {
            next: None,
            fault: Some(SensorFault {
                signal: Signal::Altitude,
                operation: Operation::StartConversion
            }),
        }
    );
    assert!(!rocket.flags.waiting_for_alt);
    assert_eq!(rocket.doing_at(now), Some(SensorCommand::StartAltitudeConversion));

    let step = rocket.sensor_reply_at(SensorReply::ConversionStarted, now);
    assert_eq!(step.next, Some(SensorCommand::PollAltitudeReady));
    let step = rocket.sensor_reply_at(SensorReply::Fault, now);
    assert_eq!(
        step,
        SampleStep {
            next: None,
            fault: Some(SensorFault { signal: Signal::Altitude, operation: Operation::PollReady }),
        }
    );
    assert!(rocket.flags.waiting_for_alt);

    assert_eq!(rocket.doing_at(now), Some(SensorCommand::PollAltitudeReady));
    let step = rocket.sensor_reply_at(SensorReply::ConversionReady(true), now);
    assert_eq!(step.next, Some(SensorCommand::ReadAltitude));
    let step = rocket.sensor_reply_at(SensorReply::Fault, now);
    assert_eq!(
        step,
        SampleStep {
            next: None,
            fault: Some(SensorFault { signal: Signal::Altitude, operation: Operation::Read }),
        }
    );
    assert!(rocket.flags.waiting_for_alt);
    assert_eq!(rocket.current_alt, 0);
    assert_eq!(rocket.log.len(), 0);
    assert_eq!(rocket.doing_at(now), Some(SensorCommand::PollAltitudeReady));
}

#[test]
fn a_reply_of_the_wrong_kind_is_a_fault() {
    let origin = Instant::now();
    let mut rocket = armed_rocket(Phase::WaitLaunch, origin);
    let now = origin + Duration::from_millis(3);
    assert_eq!(rocket.doing_at(now), Some(SensorCommand::ReadAcceleration));
    let step = rocket.sensor_reply_at(SensorReply::Altitude(5), now);
    assert_eq!(
        step,
        SampleStep {
            next: None,
            fault: Some(SensorFault { signal: Signal::Acceleration, operation: Operation::Read }),
        }
    );
    assert_eq!(rocket.current_alt, 0);
    assert_eq!(rocket.log.len(), 0);
    assert_eq!(SensorCommand::ReadAltitude.fault().signal, Signal::Altitude);
}

#[test]
fn a_reply_to_nothing_is_dropped() {
    let origin = Instant::now();
    let mut rocket = armed_rocket(Phase::WaitPeak, origin);
    for reply in [
        SensorReply::Acceleration(1, 1, 1),
        SensorReply::ConversionStarted,
        SensorReply::ConversionReady(true),
        SensorReply::Altitude(9),
        SensorReply::Fault,
    ] {
        let step = rocket.sensor_reply_at(reply, origin + Duration::from_secs(1));
        assert_eq!(step, no_fault(None));
    }
    assert_eq!(rocket.log.len(), 0);
    assert_eq!(rocket.current_accel, (0, 0, 0));
    assert_eq!(rocket.current_alt, 0);
    assert!(!rocket.flags.waiting_for_alt);
}

#[test]
fn a_conversion_is_started_again_when_the_timer_expires() {
    let origin = Instant::now();
    let mut rocket = armed_rocket(Phase::WaitPeak, origin);
    rocket.flags.new_accel = Timer::starting_at(origin, Duration::from_secs(1000));
    rocket.flags.waiting_for_alt = true;
    let now = origin + Duration::from_millis(50);
    assert_eq!(rocket.doing_at(now), Some(SensorCommand::StartAltitudeConversion));
}

#[test]
fn sampling_reads_the_clock_itself() {
    let mut rocket = Rocket::new();
    rocket.current_status = Phase::WaitLaunch;
    rocket.flags.new_accel = Timer::new(Duration::from_secs(0));
    assert_eq!(rocket.doing(), Some(SensorCommand::ReadAcceleration));
    let step = rocket.sensor_reply(SensorReply::Acceleration(1, 2, 3));
    assert_eq!(step, no_fault(None));
    assert_eq!(rocket.log.len(), 1);
    rocket.log();
    assert_eq!(rocket.log.len(), 2);
    assert!(rocket.log.entries()[0].met <= rocket.log.entries()[1].met);
    assert_eq!(rocket.flags.new_accel.target_duration, Duration::from_micros(2500));
}
