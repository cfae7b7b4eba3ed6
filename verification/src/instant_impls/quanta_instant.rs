//! The clock of the `quanta` crate as a stopwatch clock.
//!
//! A `quanta::Instant` counts nanoseconds of reference time in a `u64`. Its
//! position is that count, so the type has an instant at no position below
//! zero or above `u64::MAX`.

use vstd::prelude::*;
use core::time::Duration;
use quanta::Instant as QuantaInstant;
use crate::duration;
use crate::instant;

verus! {

/// Makes `quanta::Instant` known to the verifier, as a type of which it sees
/// nothing but the name.
#[verifier::external_type_specification]
#[verifier::external_body]
pub struct ExQuantaInstant(QuantaInstant);

/// The count of nanoseconds that `t` holds.
pub uninterp spec fn position_of(t: QuantaInstant) -> u64;

/// Trusted: calls `quanta::Instant::now`. Nothing is stated of the reading.
#[verifier::external_body]
fn read_clock() -> (t: QuantaInstant)
{
    QuantaInstant::now()
}

/// Trusted: `quanta::Instant::checked_add` adds the nanoseconds of `d` to the
/// count of `t`, and returns `None` exactly when the sum does not fit in a
/// `u64`.
#[verifier::external_body]
fn later_by(t: &QuantaInstant, d: Duration) -> (r: Option<QuantaInstant>)
    ensures
        match r {
            Some(u) => position_of(u) == position_of(*t) + duration::nanos(d),
            None => position_of(*t) + duration::nanos(d) > u64::MAX,
        },
{
    t.checked_add(d)
}

/// Trusted: `quanta::Instant::checked_sub` takes the nanoseconds of `d` from
/// the count of `t`, and returns `None` exactly when `d` holds more
/// nanoseconds than the count.
#[verifier::external_body]
fn earlier_by(t: &QuantaInstant, d: Duration) -> (r: Option<QuantaInstant>)
    ensures
        match r {
            Some(u) => position_of(u) == position_of(*t) - duration::nanos(d),
            None => position_of(*t) - duration::nanos(d) < 0,
        },
{
    t.checked_sub(d)
}

/// Trusted: `quanta::Instant::saturating_duration_since` returns the
/// difference of the two counts as a duration, or zero when the count of
/// `earlier` is the larger.
#[verifier::external_body]
fn time_since(t: &QuantaInstant, earlier: QuantaInstant) -> (d: Duration)
    ensures
        duration::nanos(d) == instant::gap(position_of(*t) as int, position_of(earlier) as int),
{
    t.saturating_duration_since(earlier)
}

impl instant::Instant for QuantaInstant {
    open spec fn position(self) -> int {
        position_of(self) as int
    }

    open spec fn kept(nanos: nat) -> nat {
        nanos
    }

    fn now() -> Self {
        read_clock()
    }

    fn checked_add(&self, duration: Duration) -> (r: Option<Self>) {
        later_by(self, duration)
    }

    fn checked_sub(&self, duration: Duration) -> (r: Option<Self>) {
        earlier_by(self, duration)
    }

    fn saturating_duration_since(&self, earlier: Self) -> (d: Duration) {
        time_since(self, earlier)
    }
}

} // verus!
