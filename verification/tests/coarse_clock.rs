//! A stopwatch over a clock that counts in ticks of a hundred nanoseconds:
//! of a duration that is added to an instant or taken from one, it keeps the
//! whole ticks only.

use core::hash::{Hash, Hasher};
use core::time::Duration;
use std::collections::hash_map::DefaultHasher;

use libsw::{Instant, Stopwatch, StopwatchImpl, Sw};

#[derive(Clone, Copy, Debug, PartialEq, Eq, Hash)]
struct Coarse(u64);

fn ticks(duration: Duration) -> Option<u64> {
    u64::try_from(duration.as_nanos() / 100).ok()
}

impl Instant for Coarse {
    fn now() -> Self {
        Coarse(10_000)
    }

    fn checked_add(&self, duration: Duration) -> Option<Self> {
        self.0.checked_add(ticks(duration)?).map(Coarse)
    }

    fn checked_sub(&self, duration: Duration) -> Option<Self> {
        self.0.checked_sub(ticks(duration)?).map(Coarse)
    }

    fn saturating_duration_since(&self, earlier: Self) -> Duration {
        Duration::from_nanos(self.0.saturating_sub(earlier.0)) * 100
    }
}

type CoarseSw = StopwatchImpl<Coarse>;

fn ns(nanos: u64) -> Duration {
    Duration::from_nanos(nanos)
}

fn hash_of(sw: &CoarseSw) -> u64 {
    let mut hasher = DefaultHasher::new();
    sw.hash(&mut hasher);
    hasher.finish()
}

#[test]
fn coarse_clock_arithmetic_keeps_whole_ticks() {
    let t = Coarse(50);
    assert_eq!(t.checked_add(ns(50)), Some(t));
    assert_eq!(t.checked_add(ns(199)), Some(Coarse(51)));
    assert_eq!(t.checked_sub(ns(99)), Some(t));
    assert_eq!(t.checked_sub(ns(5_000)), Some(Coarse(0)));
    assert_eq!(t.checked_sub(ns(5_100)), None);
    assert_eq!(Coarse(51).saturating_duration_since(t), ns(100));
    assert_eq!(t.saturating_duration_since(Coarse(51)), Duration::ZERO);
}

#[test]
fn coarse_clock_compares_by_what_it_keeps() {
    let start = Coarse(50);
    let plain = CoarseSw::new_started_at(start);
    let below_a_tick = CoarseSw::from_raw(ns(50), Some(start));
    let one_tick = CoarseSw::from_raw(ns(100), Some(start));
    let one_tick_and_more = CoarseSw::from_raw(ns(150), Some(start));
    let two_ticks = CoarseSw::from_raw(ns(200), Some(start));

    assert_eq!(plain, below_a_tick);
    assert_eq!(hash_of(&plain), hash_of(&below_a_tick));
    assert_eq!(one_tick, one_tick_and_more);
    assert_eq!(hash_of(&one_tick), hash_of(&one_tick_and_more));
    assert_ne!(plain, one_tick);
    assert_ne!(hash_of(&plain), hash_of(&one_tick));
    assert_ne!(one_tick, two_ticks);

    assert_eq!(one_tick, CoarseSw::new_started_at(Coarse(49)));
    assert_eq!(two_ticks, CoarseSw::from_raw(ns(100), Some(Coarse(49))));
}

#[test]
fn coarse_clock_measures_in_ticks() {
    let mut sw = CoarseSw::with_elapsed(ns(30));
    assert_eq!(sw.start_at(Coarse(50)), Ok(()));
    assert_eq!(sw.elapsed_at(Coarse(53)), ns(330));
    assert_eq!(sw.elapsed_at(Coarse(49)), ns(30));
    assert_eq!(sw.elapsed(), ns(30) + ns(100) * 9_950);
    assert_eq!(sw.stop_at(Coarse(53)), Ok(()));
    assert_eq!((sw.elapsed, sw.start), (ns(330), None));

    let running = CoarseSw::from_raw(ns(30), Some(Coarse(50)));
    let less = running.checked_sub_at(ns(130), Coarse(51)).unwrap();
    assert_eq!((less.elapsed, less.start), (Duration::ZERO, Some(Coarse(51))));
    assert_eq!(running.checked_sub_at(ns(131), Coarse(51)), None);
}

#[test]
fn coarse_clock_is_unbounded_below_its_first_tick() {
    let a = CoarseSw::from_raw(ns(5_100), Some(Coarse(50)));
    let b = CoarseSw::from_raw(Duration::MAX, Some(Coarse(7)));
    let edge = CoarseSw::from_raw(ns(5_099), Some(Coarse(50)));
    assert_eq!(a, b);
    assert_eq!(hash_of(&a), hash_of(&b));
    assert_ne!(a, edge);
    assert_eq!(edge, CoarseSw::new_started_at(Coarse(0)));
}

#[test]
fn stopwatch_alias_names_the_default_stopwatch() {
    let by_alias: Stopwatch = Sw::with_elapsed(Duration::from_secs(1));
    let plain: Sw = Stopwatch::with_elapsed(Duration::from_secs(1));
    assert_eq!(by_alias, plain);
}

#[test]
fn started_together_on_the_monotonic_clock() {
    let start = std::time::Instant::now();
    let a = Sw::new_started_at(start);
    let b = Sw::new_started_at(start);
    assert_eq!(a, b);
    for nanos in [1u64, 99, 100, 100_000_000] {
        assert_ne!(a, Sw::from_raw(ns(nanos), Some(start)));
    }
}

#[test]
fn minus_nothing_on_a_fresh_running_stopwatch() {
    let start = std::time::Instant::now();
    let sw = Sw::new_started_at(start) - Duration::ZERO;
    assert!(sw.is_running());
    assert!(sw.start.unwrap() >= start);
    assert_eq!(sw.elapsed_at(start), sw.elapsed);
}
