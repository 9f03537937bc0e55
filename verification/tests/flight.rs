use rocket_avionics::entry::EntryActions;
use rocket_avionics::phase::Phase;
use rocket_avionics::rocket::Rocket;
use rocket_avionics::sensor::{SensorCommand, SensorReply};
use std::time::{Duration, Instant};

/// Sensors of a vehicle whose acceleration and altitude are set by the test.
struct Bench {
    accel: (i32, i32, i32),
    altitude: i32,
    commands: Vec<SensorCommand>,
}

impl Bench {
    fn answer(&mut self, command: SensorCommand) -> SensorReply {
        self.commands.push(command);
        match command {
            SensorCommand::ReadAcceleration => {
                SensorReply::Acceleration(self.accel.0, self.accel.1, self.accel.2)
            }
            SensorCommand::StartAltitudeConversion => SensorReply::ConversionStarted,
            SensorCommand::PollAltitudeReady => SensorReply::ConversionReady(true),
            SensorCommand::ReadAltitude => SensorReply::Altitude(self.altitude),
        }
    }
}

/// One pass of the control loop at `now`.
fn tick(rocket: &mut Rocket, bench: &mut Bench, now: Instant) -> EntryActions {
    let actions = rocket.enter_phase_at(now);
    let mut command = rocket.doing_at(now);
    let mut asked = 0;
    while let Some(operation) = command {
        asked += 1;
        assert!(asked <= 4);
        let step = rocket.sensor_reply_at(bench.answer(operation), now);
        assert_eq!(step.fault, None);
        command = step.next;
    }
    rocket.transition_at(now);
    actions
}

#[test]
fn a_whole_flight_cycle() {
    let origin = Instant::now();
    let mut rocket = Rocket::starting_at(origin);
    let mut bench = Bench { accel: (0, 0, 1000), altitude: 0, commands: Vec::new() };
    let mut now = origin;
    let step = Duration::from_millis(10);

    // Reload: the entry actions run at once, and nothing is sampled for 40 s.
    let actions = tick(&mut rocket, &mut bench, now);
    assert_eq!(actions.entered, Some(Phase::Reload));
    assert_eq!(actions.actuator, Some(false));
    assert!(actions.session_log.is_none());
    while rocket.current_status == Phase::Reload {
        now += Duration::from_secs(1);
        let actions = tick(&mut rocket, &mut bench, now);
        assert_eq!(actions.entered, None);
    }
    assert_eq!(now, origin + Duration::from_secs(40));
    assert!(bench.commands.is_empty());
    assert_eq!(rocket.log.len(), 0);

    // WaitLaunch: only the acceleration is sampled, and the log stays capped.
    now += step;
    let actions = tick(&mut rocket, &mut bench, now);
    assert_eq!(actions.entered, Some(Phase::WaitLaunch));
    for _ in 0..1200 {
        now += step;
        let actions = tick(&mut rocket, &mut bench, now);
        assert_eq!(actions.entered, None);
    }
    assert_eq!(rocket.current_status, Phase::WaitLaunch);
    assert_eq!(rocket.log.len(), 1000);
    assert!(bench.commands.iter().all(|c| *c == SensorCommand::ReadAcceleration));
    assert_eq!(bench.commands.len(), 1200);

    // Launch.
    bench.accel = (1000, 1000, 1500);
    now += step;
    tick(&mut rocket, &mut bench, now);
    assert_eq!(rocket.current_status, Phase::WaitPeak);
    assert_eq!(rocket.log_start_index, Some(999));
    assert_eq!(rocket.log.entries()[999].accel, (1000, 1000, 1500));
    let launch_met = rocket.log.entries()[999].met;
    assert_eq!(launch_met, 52_020_000_000);

    // WaitPeak: climbing for two seconds, both signals sampled.
    bench.accel = (0, 0, 2000);
    now += step;
    let actions = tick(&mut rocket, &mut bench, now);
    assert_eq!(actions.entered, Some(Phase::WaitPeak));
    let flight_start = now;
    assert_eq!(rocket.start_met, Some(flight_start));
    for _ in 0..200 {
        now += step;
        bench.altitude += 300;
        tick(&mut rocket, &mut bench, now);
        assert_eq!(rocket.current_status, Phase::WaitPeak);
    }
    assert!(rocket.log.len() > 1100);
    assert!(bench.commands.contains(&SensorCommand::ReadAltitude));

    // Past the apogee: falling 100 thousandths every 10 ms.
    let mut ticks = 0;
    while rocket.current_status == Phase::WaitPeak {
        now += step;
        bench.altitude -= 100;
        tick(&mut rocket, &mut bench, now);
        ticks += 1;
        assert!(ticks < 1000);
    }
    assert_eq!(rocket.current_status, Phase::WaitLanding);
    let at_apogee = rocket.log.len();

    // WaitLanding: the actuator fires, a photograph is taken, the whole log is saved.
    now += step;
    bench.altitude -= 100;
    let actions = tick(&mut rocket, &mut bench, now);
    assert_eq!(actions.entered, Some(Phase::WaitLanding));
    assert_eq!(actions.actuator, Some(true));
    assert!(actions.capture_photo);
    assert_eq!(actions.recovery_log.map(|v| v.len()), Some(at_apogee));
    assert!(actions.session_log.is_none());

    // Still falling: no touchdown.
    for _ in 0..600 {
        now += step;
        bench.altitude -= 100;
        tick(&mut rocket, &mut bench, now);
        assert_eq!(rocket.current_status, Phase::WaitLanding);
    }
    assert!(now > flight_start + Duration::from_secs(5));

    // On the ground the altitude rests.
    let mut ticks = 0;
    while rocket.current_status == Phase::WaitLanding {
        now += step;
        tick(&mut rocket, &mut bench, now);
        ticks += 1;
        assert!(ticks < 100);
    }
    assert_eq!(rocket.current_status, Phase::Reload);
    let flown = rocket.log.len();
    assert_eq!(rocket.log_start_index, Some(999));
    assert!(rocket.log.entries().windows(2).all(|pair| pair[0].met <= pair[1].met));

    // Reload: the flight is written to the session log, and the cycle starts anew.
    now += step;
    let actions = tick(&mut rocket, &mut bench, now);
    assert_eq!(actions.entered, Some(Phase::Reload));
    assert_eq!(actions.actuator, Some(false));
    let session = actions.session_log.expect("the flight is persisted");
    assert_eq!(session.len(), flown - 999);
    assert_eq!(session[0].met, launch_met);
    assert_eq!(session[0].status, Phase::WaitLaunch);
    assert!(session[1..].iter().all(|e| e.status != Phase::WaitLaunch));
    assert_eq!(session[0].to_line(), "52.020, WaitLaunch, 0.0, 1.00, 1.00, 1.50");
    assert_eq!(rocket.log.len(), 0);
    assert_eq!(rocket.log_start_index, None);
    assert_eq!(rocket.start_met, None);
    assert_eq!(rocket.current_met, now);
}

#[test]
fn a_sensor_fault_does_not_stop_the_loop() {
    let origin = Instant::now();
    let mut rocket = Rocket::starting_at(origin);
    rocket.current_status = Phase::WaitLaunch;
    rocket.enter_phase_at(origin);
    rocket.current_status = Phase::WaitPeak;
    rocket.start_met = Some(origin);
    let mut now = origin;
    let mut faults = 0;
    let mut logged_accel = 0;
    for i in 0..50u32 {
        now += Duration::from_millis(3);
        rocket.enter_phase_at(now);
        let mut command = rocket.doing_at(now);
        while let Some(operation) = command {
            let reply = if i % 2 == 0 {
                SensorReply::Fault
            } else {
                match operation {
                    SensorCommand::ReadAcceleration => SensorReply::Acceleration(0, 0, 1000),
                    SensorCommand::StartAltitudeConversion => SensorReply::ConversionStarted,
                    SensorCommand::PollAltitudeReady => SensorReply::ConversionReady(false),
                    SensorCommand::ReadAltitude => SensorReply::Altitude(1),
                }
            };
            let before = rocket.log.len();
            let step = rocket.sensor_reply_at(reply, now);
            if step.fault.is_some() {
                faults += 1;
                assert_eq!(rocket.log.len(), before);
            } else if operation == SensorCommand::ReadAcceleration {
                logged_accel += 1;
                assert_eq!(rocket.log.len(), before + 1);
            }
            command = step.next;
        }
        rocket.transition_at(now);
    }
    assert!(faults >= 25);
    assert_eq!(logged_accel, 25);
    assert_eq!(rocket.log.len(), 25);
    assert_eq!(rocket.current_status, Phase::WaitPeak);
}
