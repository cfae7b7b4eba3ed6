//! The clocks that come with the library, each through the `Instant` trait
//! and under a stopwatch.

use core::time::Duration;

use libsw::{Instant, QuantaSw, Sw, SystemSw};

const STEP: Duration = Duration::from_millis(250);

fn arithmetic_holds_for<I: Instant>() {
    let base = I::now();
    let later = base.checked_add(STEP).unwrap();
    assert_eq!(later.saturating_duration_since(base), STEP);
    assert_eq!(base.saturating_duration_since(later), Duration::ZERO);
    assert_eq!(base.saturating_duration_since(base), Duration::ZERO);

    let back = later.checked_sub(STEP).unwrap();
    assert_eq!(back.saturating_duration_since(base), Duration::ZERO);
    assert_eq!(base.saturating_duration_since(back), Duration::ZERO);

    let further = later.checked_add(STEP).unwrap();
    assert_eq!(further.saturating_duration_since(base), STEP * 2);
    assert_eq!(further.saturating_duration_since(later), STEP);

    let earlier = later.checked_sub(Duration::from_millis(100)).unwrap();
    assert_eq!(earlier.saturating_duration_since(base), Duration::from_millis(150));
    assert_eq!(later.saturating_duration_since(earlier), Duration::from_millis(100));

    assert!(base.checked_add(Duration::MAX).is_none());
    assert!(base.checked_sub(Duration::MAX).is_none());
}

#[test]
fn std_instant_arithmetic() {
    arithmetic_holds_for::<std::time::Instant>();
}

#[test]
fn std_systemtime_arithmetic() {
    arithmetic_holds_for::<std::time::SystemTime>();
}

#[test]
fn quanta_instant_arithmetic() {
    arithmetic_holds_for::<quanta::Instant>();
}

#[test]
fn std_instant_agrees_with_its_own_methods() {
    let base = std::time::Instant::now();
    let later = base + STEP;
    assert_eq!(<std::time::Instant as Instant>::checked_add(&base, STEP), Some(later));
    assert_eq!(<std::time::Instant as Instant>::checked_sub(&later, STEP), Some(base));
    assert_eq!(<std::time::Instant as Instant>::saturating_duration_since(&later, base), STEP);
}

#[test]
fn std_systemtime_agrees_with_its_own_methods() {
    let base = std::time::SystemTime::UNIX_EPOCH + Duration::from_secs(1_000_000);
    let later = base + STEP;
    assert_eq!(<std::time::SystemTime as Instant>::checked_add(&base, STEP), Some(later));
    assert_eq!(<std::time::SystemTime as Instant>::checked_sub(&later, STEP), Some(base));
    assert_eq!(<std::time::SystemTime as Instant>::saturating_duration_since(&later, base), STEP);
    assert_eq!(
        <std::time::SystemTime as Instant>::saturating_duration_since(&base, later),
        Duration::ZERO
    );
}

#[test]
fn quanta_instant_agrees_with_its_own_methods() {
    let base = quanta::Instant::now();
    let later = base + STEP;
    assert_eq!(<quanta::Instant as Instant>::checked_add(&base, STEP), Some(later));
    assert_eq!(<quanta::Instant as Instant>::checked_sub(&later, STEP), Some(base));
    assert_eq!(<quanta::Instant as Instant>::saturating_duration_since(&later, base), STEP);
}

#[test]
fn now_reads_a_clock_that_moves_on() {
    fn moves_on<I: Instant>() {
        let first = I::now();
        let mut reading = I::now();
        let mut tries = 0u64;
        while reading.saturating_duration_since(first) == Duration::ZERO && tries < 50_000_000 {
            reading = I::now();
            tries += 1;
        }
        assert!(reading.saturating_duration_since(first) > Duration::ZERO);
    }
    moves_on::<std::time::Instant>();
    moves_on::<std::time::SystemTime>();
    moves_on::<quanta::Instant>();
}

#[test]
fn sw_basic_cycle() {
    let mut sw = Sw::new();
    assert_eq!(sw.elapsed(), Duration::ZERO);
    assert!(sw.is_stopped());

    let begin = std::time::Instant::now();
    assert_eq!(sw.start_at(begin), Ok(()));
    assert_eq!(sw.stop_at(begin + Duration::from_millis(100)), Ok(()));

    assert!(sw.elapsed() >= Duration::from_millis(100));
    assert_eq!(sw.elapsed(), Duration::from_millis(100));
    assert!(sw.is_stopped());
}

#[test]
fn system_sw_basic_cycle() {
    let mut sw = SystemSw::with_elapsed(Duration::from_secs(1));
    let begin = std::time::SystemTime::UNIX_EPOCH + Duration::from_secs(86_400);
    assert_eq!(sw.start_at(begin), Ok(()));
    assert_eq!(sw.elapsed_at(begin + STEP), Duration::from_millis(1_250));
    assert_eq!(sw.elapsed_at(begin - STEP), Duration::from_secs(1));
    assert_eq!(sw.stop_at(begin + STEP), Ok(()));
    assert_eq!(sw.elapsed(), Duration::from_millis(1_250));
    assert_eq!(sw, SystemSw::with_elapsed(Duration::from_millis(1_250)));
}

#[test]
fn system_sw_tolerates_a_clock_set_back() {
    let begin = std::time::SystemTime::UNIX_EPOCH + Duration::from_secs(86_400);
    let mut sw = SystemSw::from_raw(Duration::from_secs(4), Some(begin));
    assert_eq!(sw.stop_at(std::time::SystemTime::UNIX_EPOCH), Ok(()));
    assert_eq!(sw.elapsed(), Duration::from_secs(4));
}

#[test]
fn quanta_sw_basic_cycle() {
    let mut sw = QuantaSw::new();
    let begin = quanta::Instant::now();
    assert_eq!(sw.start_at(begin), Ok(()));
    assert_eq!(sw.elapsed_at(begin + STEP), STEP);
    assert_eq!(sw.checked_stop_at(begin + STEP), Ok(Some(())));
    assert_eq!(sw.elapsed(), STEP);
    assert!(sw == QuantaSw::with_elapsed(STEP));

    let crafted = QuantaSw::from_raw(STEP, Some(begin + STEP));
    let plain = QuantaSw::new_started_at(begin);
    assert!(crafted == plain);
    assert!(crafted != QuantaSw::new_started_at(begin + STEP));
}

#[test]
fn quanta_sw_is_unbounded_below_zero() {
    let begin = quanta::Instant::now();
    let a = QuantaSw::from_raw(Duration::MAX, Some(begin));
    let b = QuantaSw::from_raw(Duration::MAX - STEP, Some(begin + STEP));
    assert!(a == b);
    assert!(a != QuantaSw::new_started_at(begin));
}

#[test]
fn system_sw_compares_by_what_the_platform_keeps() {
    let begin = std::time::SystemTime::UNIX_EPOCH + Duration::from_secs(86_400);
    let plain = SystemSw::new_started_at(begin);
    for nanos in [0u64, 1, 50, 99, 100, 150, 1_000, 100_000_000] {
        let elapsed = Duration::from_nanos(nanos);
        let crafted = SystemSw::from_raw(elapsed, Some(begin));
        let kept_nothing = begin.checked_sub(elapsed) == Some(begin);
        assert_eq!(crafted == plain, kept_nothing);

        let moved = begin.checked_add(elapsed).unwrap();
        let kept = moved.saturating_duration_since(begin);
        assert!(kept <= elapsed);
        assert!(SystemSw::from_raw(kept, Some(moved)) == plain);
    }
}
