//! Whole runs of a stopwatch over the monotonic clock of the standard
//! library.

use core::time::Duration;
use std::time::Instant;

use libsw::{Error, Sw};

/// Lets the clock run for `dur`.
fn pause(dur: Duration) {
    let begin = Instant::now();
    while begin.elapsed() < dur {
        std::hint::spin_loop();
    }
}

#[test]
fn scenario_basic_cycle() {
    let mut sw = Sw::new();
    assert_eq!(sw.elapsed(), Duration::ZERO);
    assert!(sw.is_stopped());

    assert_eq!(sw.start(), Ok(()));
    pause(Duration::from_millis(100));
    assert_eq!(sw.stop(), Ok(()));

    assert!(sw.elapsed() >= Duration::from_millis(100));
    assert!(sw.is_stopped());
    let read = sw.elapsed();
    pause(Duration::from_millis(10));
    assert_eq!(sw.elapsed(), read);
}

#[test]
fn scenario_basic_cycle_with_anchors() {
    let begin = Instant::now();
    let mut sw = Sw::new();
    assert_eq!(sw.start_at(begin), Ok(()));
    assert_eq!(sw.stop_at(begin + Duration::from_millis(100)), Ok(()));
    assert_eq!(sw.elapsed(), Duration::from_millis(100));
    assert!(sw.is_stopped());

    assert_eq!(sw.start_at(begin + Duration::from_millis(300)), Ok(()));
    assert_eq!(sw.stop_at(begin + Duration::from_millis(350)), Ok(()));
    assert_eq!(sw.elapsed(), Duration::from_millis(150));
}

#[test]
fn scenario_early_stop_anchor() {
    let held = Duration::from_millis(1_234);
    let begin = Instant::now();
    let mut sw = Sw::with_elapsed(held);
    assert_eq!(sw.start_at(begin), Ok(()));
    assert_eq!(sw.stop_at(begin - Duration::from_secs(1)), Ok(()));
    assert_eq!(sw.elapsed(), held);
    assert!(sw.is_stopped());
}

#[test]
fn scenario_reset_in_place_while_running() {
    let mut sw = Sw::new();
    assert_eq!(sw.start(), Ok(()));
    pause(Duration::from_millis(200));
    assert!(sw.elapsed() >= Duration::from_millis(200));

    sw.reset_in_place();
    assert!(sw.is_running());
    assert!(sw.elapsed() < Duration::from_millis(100));
}

#[test]
fn scenario_overflowing_stop() {
    let begin = Instant::now();

    let mut sw = Sw::with_elapsed(Duration::MAX);
    assert_eq!(sw.start_at(begin), Ok(()));
    assert_eq!(sw.checked_stop_at(begin + Duration::from_millis(100)), Ok(None));
    assert!(sw.is_running());
    assert_eq!(sw.elapsed, Duration::MAX);
    assert_eq!(sw.start, Some(begin));

    let mut sw = Sw::with_elapsed(Duration::MAX);
    assert_eq!(sw.start_at(begin), Ok(()));
    assert_eq!(sw.stop_at(begin + Duration::from_millis(100)), Ok(()));
    assert!(sw.is_stopped());
    assert_eq!(sw.elapsed(), Duration::MAX);
}

#[test]
fn scenario_overflowing_stop_on_the_running_clock() {
    let mut sw = Sw::with_elapsed(Duration::MAX);
    assert_eq!(sw.start(), Ok(()));
    pause(Duration::from_millis(1));
    assert_eq!(sw.checked_stop(), Ok(None));
    assert!(sw.is_running());
    assert_eq!(sw.elapsed, Duration::MAX);
    assert_eq!(sw.stop(), Ok(()));
    assert!(sw.is_stopped());
    assert_eq!(sw.elapsed(), Duration::MAX);
}

#[test]
fn scenario_equality_does_not_age() {
    let begin = Instant::now();
    let sw_1 = Sw::new_started_at(begin);
    let sw_2 = Sw::new_started_at(begin);
    let other = Sw::new_started_at(begin + Duration::from_nanos(1));
    assert!(sw_1 == sw_2);
    assert!(sw_1 != other);
    pause(Duration::from_millis(20));
    assert!(sw_1 == sw_2);
    assert!(sw_1 != other);
    pause(Duration::from_millis(20));
    assert!(sw_1 == sw_2);
    assert!(sw_1 != other);
}

#[test]
fn scenario_failed_steps_leave_the_stopwatch_alone() {
    let begin = Instant::now();
    let mut sw = Sw::from_raw(Duration::from_secs(2), Some(begin));
    assert_eq!(sw.start_at(begin + Duration::from_secs(1)), Err(Error::SwStart));
    assert_eq!((sw.elapsed, sw.start), (Duration::from_secs(2), Some(begin)));

    let mut sw = Sw::with_elapsed(Duration::from_secs(2));
    assert_eq!(sw.stop_at(begin), Err(Error::SwStop));
    assert_eq!(sw.checked_stop_at(begin), Err(Error::SwStop));
    assert_eq!((sw.elapsed, sw.start), (Duration::from_secs(2), None));
}

#[test]
fn debug_shows_the_parts() {
    assert_eq!(
        format!("{:?}", Sw::with_elapsed(Duration::from_secs(1))),
        "StopwatchImpl { elapsed: 1s, start: None }"
    );
    let begin = Instant::now();
    assert_eq!(
        format!("{:?}", Sw::new_started_at(begin)),
        format!("StopwatchImpl {{ elapsed: 0ns, start: Some({:?}) }}", begin)
    );
}
