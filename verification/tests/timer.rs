use rocket_avionics::timer::{nanos_between, Timer};
use std::time::{Duration, Instant};

fn spin_for(span: Duration) {
    let begin = Instant::now();
    while begin.elapsed() < span {
        std::hint::spin_loop();
    }
}

#[test]
fn timer_test() {
    let duration_test = Duration::from_millis(10);
    let timer = Timer::new(duration_test);
    assert_eq!(false, timer.has_expired());
    spin_for(duration_test);
    assert_eq!(true, timer.has_expired());

    let duration_test = Duration::from_millis(100);
    let timer = Timer::new(duration_test);
    assert_eq!(false, timer.has_expired());
    spin_for(duration_test);
    assert_eq!(true, timer.has_expired());

    let duration_test = Duration::from_millis(1000);
    let timer = Timer::new(duration_test);
    assert_eq!(false, timer.has_expired());
    spin_for(duration_test);
    assert_eq!(true, timer.has_expired());
}

#[test]
fn timer_is_not_expired_at_its_start() {
    let start = Instant::now();
    for target in [
        Duration::from_nanos(1),
        Duration::from_micros(2500),
        Duration::from_millis(50),
        Duration::from_secs(40),
    ] {
        let timer = Timer::starting_at(start, target);
        assert!(!timer.expired_at(start));
    }
}

#[test]
fn timer_expires_exactly_at_its_target() {
    let start = Instant::now();
    let timer = Timer::starting_at(start, Duration::from_micros(2500));
    assert!(!timer.expired_at(start + Duration::from_nanos(2_499_999)));
    assert!(timer.expired_at(start + Duration::from_nanos(2_500_000)));
    assert!(timer.expired_at(start + Duration::from_nanos(2_500_001)));
    assert!(timer.expired_at(start + Duration::from_secs(3600)));
}

#[test]
fn timer_with_empty_target_is_expired_at_once() {
    let start = Instant::now();
    let timer = Timer::starting_at(start, Duration::from_secs(0));
    assert!(timer.expired_at(start));
    assert!(Timer::new(Duration::from_secs(0)).has_expired());
}

#[test]
fn timer_asked_before_its_start_sees_no_time() {
    let early = Instant::now();
    let start = early + Duration::from_secs(5);
    let timer = Timer::starting_at(start, Duration::from_millis(1));
    assert!(!timer.expired_at(early));
    assert_eq!(nanos_between(early, start), 0);
}

#[test]
fn timer_keeps_its_target() {
    let timer = Timer::new(Duration::from_millis(50));
    assert_eq!(timer.target_duration, Duration::from_millis(50));
    let copy = timer.clone();
    assert_eq!(copy.target_duration, Duration::from_millis(50));
}

#[test]
fn nanos_between_measures_forward() {
    let start = Instant::now();
    assert_eq!(nanos_between(start, start), 0);
    assert_eq!(nanos_between(start + Duration::from_micros(7), start), 7_000);
    assert_eq!(nanos_between(start + Duration::from_secs(2), start), 2_000_000_000);
}
