//! The arithmetic of durations as the stopwatch sees it.

use core::time::Duration;

use libsw::duration::MAX_NANOS;
use libsw::Sw;

const NS: Duration = Duration::from_nanos(1);

#[test]
fn longest_duration_in_nanoseconds() {
    assert_eq!(Duration::MAX.as_nanos(), MAX_NANOS);
    assert_eq!(MAX_NANOS, u128::from(u64::MAX) * 1_000_000_000 + 999_999_999);
}

#[test]
fn saturating_add_caps_at_the_longest_duration() {
    let sw = Sw::with_elapsed(Duration::from_secs(1));
    assert_eq!(sw.saturating_add(Duration::from_secs(1)).elapsed, Duration::from_secs(2));
    assert_eq!(sw.saturating_add(Duration::MAX - Duration::from_secs(1)).elapsed, Duration::MAX);
    assert_eq!(sw.saturating_add(Duration::MAX - Duration::from_secs(1) - NS).elapsed, Duration::MAX - NS);
    assert_eq!(sw.saturating_add(Duration::MAX).elapsed, Duration::MAX);
    assert_eq!(sw.saturating_add(Duration::ZERO).elapsed, Duration::from_secs(1));
}

#[test]
fn saturating_sub_floors_at_zero() {
    let sw = Sw::with_elapsed(Duration::from_secs(1));
    assert_eq!(sw.saturating_sub(NS).elapsed, Duration::from_secs(1) - NS);
    assert_eq!(sw.saturating_sub(Duration::from_secs(1)).elapsed, Duration::ZERO);
    assert_eq!(sw.saturating_sub(Duration::from_secs(1) + NS).elapsed, Duration::ZERO);
    assert_eq!(sw.saturating_sub(Duration::MAX).elapsed, Duration::ZERO);
}

#[test]
fn checked_add_stops_at_the_longest_duration() {
    let sw = Sw::with_elapsed(Duration::from_secs(1));
    assert_eq!(
        sw.checked_add(Duration::from_millis(1)).map(|sum| sum.elapsed),
        Some(Duration::from_millis(1_001))
    );
    assert_eq!(
        sw.checked_add(Duration::MAX - Duration::from_secs(1)).map(|sum| sum.elapsed),
        Some(Duration::MAX)
    );
    assert_eq!(sw.checked_add(Duration::MAX - Duration::from_secs(1) + NS), None);
}

#[test]
fn checked_sub_stops_at_zero() {
    let sw = Sw::with_elapsed(Duration::from_secs(1));
    assert_eq!(
        sw.checked_sub(Duration::from_millis(1)).map(|rest| rest.elapsed),
        Some(Duration::from_millis(999))
    );
    assert_eq!(
        sw.checked_sub(Duration::from_secs(1)).map(|rest| rest.elapsed),
        Some(Duration::ZERO)
    );
    assert_eq!(sw.checked_sub(Duration::from_secs(1) + NS), None);
}

#[test]
fn empty_and_longest_stopwatches() {
    assert_eq!(Sw::new().elapsed, Duration::ZERO);
    assert_eq!(Sw::new_started().elapsed, Duration::ZERO);
    let begin = std::time::Instant::now();
    let sw = Sw::from_raw(Duration::MAX - NS, Some(begin));
    assert_eq!(sw.elapsed_at(begin + NS + NS), Duration::MAX);
    assert_eq!(sw.elapsed_at(begin + NS), Duration::MAX);
    assert_eq!(sw.elapsed_at(begin), Duration::MAX - NS);
}
