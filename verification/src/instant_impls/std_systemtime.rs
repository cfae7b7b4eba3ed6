//! The system clock of the standard library as a stopwatch clock.
//!
//! `std::time::SystemTime` is not monotonic: a later reading may lie before
//! an earlier one. The stopwatch tolerates that, since the time between two
//! readings saturates to zero.
//!
//! Its precision depends on the platform: one platform counts nanoseconds,
//! another counts in units of a hundred of them. So of a duration that is
//! added to a `SystemTime` or taken from it, only a part may be kept, and
//! which part is the platform's business.

use vstd::prelude::*;
use core::time::Duration;
use crate::duration;
use crate::instant;

verus! {

/// Makes `std::time::SystemTime` known to the verifier, as a type of which it sees
/// nothing but the name.
#[verifier::external_type_specification]
#[verifier::external_body]
pub struct ExSystemTime(std::time::SystemTime);

/// The point in time that `t` denotes, in nanoseconds from the epoch of the
/// system clock.
pub uninterp spec fn position_of(t: std::time::SystemTime) -> int;

/// The part of a duration of `nanos` nanoseconds that the platform's
/// `SystemTime` keeps when the duration is added to one or taken from one.
pub uninterp spec fn kept_of(nanos: nat) -> nat;

/// Whether a `std::time::SystemTime` can represent the given position:
/// whether there is one that denotes it.
pub open spec fn in_bounds(position: int) -> bool {
    exists|t: std::time::SystemTime| #[trigger] position_of(t) == position
}

/// Trusted: calls `std::time::SystemTime::now`. Nothing is stated of the
/// reading.
#[verifier::external_body]
fn read_clock() -> (t: std::time::SystemTime)
{
    std::time::SystemTime::now()
}

/// Trusted: `std::time::SystemTime::checked_add` returns the time `t + d`,
/// as far as the platform's precision keeps `d`, if a `SystemTime` can
/// represent it, and `None` otherwise.
#[verifier::external_body]
fn later_by(t: &std::time::SystemTime, d: Duration) -> (r: Option<std::time::SystemTime>)
    ensures
        match r {
            Some(u) => position_of(u) == position_of(*t) + kept_of(duration::nanos(d)),
            None => !in_bounds(position_of(*t) + kept_of(duration::nanos(d))),
        },
{
    t.checked_add(d)
}

/// Trusted: `std::time::SystemTime::checked_sub` returns the time `t - d`,
/// as far as the platform's precision keeps `d`, if a `SystemTime` can
/// represent it, and `None` otherwise.
#[verifier::external_body]
fn earlier_by(t: &std::time::SystemTime, d: Duration) -> (r: Option<std::time::SystemTime>)
    ensures
        match r {
            Some(u) => position_of(u) == position_of(*t) - kept_of(duration::nanos(d)),
            None => !in_bounds(position_of(*t) - kept_of(duration::nanos(d))),
        },
{
    t.checked_sub(d)
}

/// Trusted: `std::time::SystemTime::duration_since` returns the time elapsed
/// from `earlier` to `t`, and fails exactly when `earlier` is later than `t`.
/// The failure comes back as `None`.
#[verifier::external_body]
fn time_since(t: &std::time::SystemTime, earlier: std::time::SystemTime) -> (r: Option<Duration>)
    ensures
        match r {
            Some(d) => position_of(*t) >= position_of(earlier)
                && duration::nanos(d) == position_of(*t) - position_of(earlier),
            None => position_of(*t) < position_of(earlier),
        },
{
    t.duration_since(earlier).ok()
}

impl instant::Instant for std::time::SystemTime {
    open spec fn position(self) -> int {
        position_of(self)
    }

    open spec fn kept(nanos: nat) -> nat {
        kept_of(nanos)
    }

    fn now() -> Self {
        read_clock()
    }

    fn checked_add(&self, duration: Duration) -> (r: Option<Self>) {
        later_by(self, duration)
    }

    fn checked_sub(&self, duration: Duration) -> (r: Option<Self>) {
        earlier_by(self, duration)
    }

    fn saturating_duration_since(&self, earlier: Self) -> (d: Duration) {
        match time_since(self, earlier) {
            Some(elapsed) => elapsed,
            None => duration::zero(),
        }
    }
}

} // verus!
