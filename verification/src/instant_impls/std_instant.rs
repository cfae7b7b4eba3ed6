//! The monotonic clock of the standard library as a stopwatch clock.
//!
//! `std::time::Instant` is opaque, to the verifier as to everybody else. What
//! is stated here of its arithmetic is what its documentation says, read over
//! the position that an instant has on the clock's timeline.

use vstd::prelude::*;
use core::time::Duration;
use crate::duration;
use crate::instant;

verus! {

/// Makes `std::time::Instant` known to the verifier, as a type of which it sees
/// nothing but the name.
#[verifier::external_type_specification]
#[verifier::external_body]
pub struct ExStdInstant(std::time::Instant);

/// The point on the monotonic clock's timeline that `t` denotes, in
/// nanoseconds from an origin that the platform picks.
pub uninterp spec fn position_of(t: std::time::Instant) -> int;

/// Whether a `std::time::Instant` can represent the given position: whether
/// there is one that denotes it.
pub open spec fn in_bounds(position: int) -> bool {
    exists|t: std::time::Instant| #[trigger] position_of(t) == position
}

/// Trusted: calls `std::time::Instant::now`. Nothing is stated of the reading.
#[verifier::external_body]
fn read_clock() -> (t: std::time::Instant)
{
    std::time::Instant::now()
}

/// Trusted: `std::time::Instant::checked_add` returns the time `t + d` if an
/// `Instant` can represent it, and `None` otherwise.
#[verifier::external_body]
fn later_by(t: &std::time::Instant, d: Duration) -> (r: Option<std::time::Instant>)
    ensures
        match r {
            Some(u) => position_of(u) == position_of(*t) + duration::nanos(d),
            None => !in_bounds(position_of(*t) + duration::nanos(d)),
        },
{
    t.checked_add(d)
}

/// Trusted: `std::time::Instant::checked_sub` returns the time `t - d` if an
/// `Instant` can represent it, and `None` otherwise.
#[verifier::external_body]
fn earlier_by(t: &std::time::Instant, d: Duration) -> (r: Option<std::time::Instant>)
    ensures
        match r {
            Some(u) => position_of(u) == position_of(*t) - duration::nanos(d),
            None => !in_bounds(position_of(*t) - duration::nanos(d)),
        },
{
    t.checked_sub(d)
}

/// Trusted: `std::time::Instant::saturating_duration_since` returns the time
/// elapsed from `earlier` to `t`, or zero if `earlier` is later than `t`.
#[verifier::external_body]
fn time_since(t: &std::time::Instant, earlier: std::time::Instant) -> (d: Duration)
    ensures
        duration::nanos(d) == instant::gap(position_of(*t), position_of(earlier)),
{
    t.saturating_duration_since(earlier)
}

impl instant::Instant for std::time::Instant {
    open spec fn position(self) -> int {
        position_of(self)
    }

    open spec fn kept(nanos: nat) -> nat {
        nanos
    }

    fn now() -> Self {
        read_clock()
    }

    fn checked_add(&self, duration: Duration) -> (r: Option<Self>) {
        later_by(self, duration)
    }

    fn checked_sub(&self, duration: Duration) -> (r: Option<Self>) {
        earlier_by(self, duration)
    }

    fn saturating_duration_since(&self, earlier: Self) -> (d: Duration) {
        time_since(self, earlier)
    }
}

} // verus!
