//! The arithmetic of `core::time::Duration` that a stopwatch relies on.
//!
//! A `Duration` is opaque to the verifier. This module names the number of
//! nanoseconds one holds and states, for each operation of the standard
//! library that the stopwatch uses, what the documentation of that operation
//! promises. Those statements are taken on trust.
//!
//! No duration is longer than `Duration::MAX`. The length of a duration,
//! [`nanos`], is read under that bound, so that a proof has the bound at hand
//! for every duration, including one that no call has looked at.

use vstd::prelude::*;
use core::time::Duration;

verus! {

/// The number of nanoseconds in `Duration::MAX`: `u64::MAX` whole seconds and
/// 999 999 999 nanoseconds more.
pub const MAX_NANOS: u128 = 18_446_744_073_709_551_615_999_999_999;

/// The total number of nanoseconds that `d` holds, as `Duration::as_nanos`
/// reports it.
pub uninterp spec fn total_nanos(d: Duration) -> nat;

/// The length of `d` in nanoseconds: what `Duration::as_nanos` reports. No
/// duration is longer than `Duration::MAX`, so the cap never takes effect;
/// it is what tells a proof that `nanos(d) <= MAX_NANOS`.
pub open spec fn nanos(d: Duration) -> nat {
    if total_nanos(d) <= MAX_NANOS {
        total_nanos(d)
    } else {
        MAX_NANOS as nat
    }
}

/// The total number of nanoseconds of an optional duration.
pub open spec fn nanos_of(d: Option<Duration>) -> Option<nat> {
    match d {
        Some(d) => Some(nanos(d)),
        None => None,
    }
}

/// `a + b`, capped at the longest duration.
pub open spec fn capped_sum(a: nat, b: nat) -> nat {
    if a + b <= MAX_NANOS {
        a + b
    } else {
        MAX_NANOS as nat
    }
}

/// `a - b`, floored at zero.
pub open spec fn floored_difference(a: nat, b: nat) -> nat {
    if a >= b {
        (a - b) as nat
    } else {
        0
    }
}

/// Trusted: `Duration::as_nanos` returns the total number of nanoseconds of
/// the duration, and no duration holds more of them than `Duration::MAX`,
/// the maximum duration.
pub assume_specification[ Duration::as_nanos ](d: &Duration) -> (n: u128)
    ensures
        n as nat == total_nanos(*d),
        n <= MAX_NANOS,
;

/// Trusted: `Duration::ZERO` holds no time at all.
#[verifier::external_body]
pub(crate) fn zero() -> (d: Duration)
    ensures
        nanos(d) == 0,
{
    Duration::ZERO
}

/// Trusted: `Duration::MAX` is `u64::MAX` seconds and 999 999 999 nanoseconds.
#[verifier::external_body]
pub(crate) fn longest() -> (d: Duration)
    ensures
        nanos(d) == MAX_NANOS,
{
    Duration::MAX
}

/// Trusted: `Duration::checked_add` returns the sum, or `None` exactly when
/// the sum is longer than `Duration::MAX`.
#[verifier::external_body]
pub(crate) fn checked_add(a: Duration, b: Duration) -> (r: Option<Duration>)
    ensures
        match r {
            Some(d) => nanos(d) == nanos(a) + nanos(b) && nanos(a) + nanos(b) <= MAX_NANOS,
            None => nanos(a) + nanos(b) > MAX_NANOS,
        },
{
    a.checked_add(b)
}

/// Trusted: `Duration::saturating_add` returns the sum, or `Duration::MAX`
/// when the sum is longer than that.
#[verifier::external_body]
pub(crate) fn saturating_add(a: Duration, b: Duration) -> (d: Duration)
    ensures
        nanos(d) == capped_sum(nanos(a), nanos(b)),
{
    a.saturating_add(b)
}

/// Trusted: `Duration::checked_sub` returns the difference, or `None` exactly
/// when the difference would be negative.
#[verifier::external_body]
pub(crate) fn checked_sub(a: Duration, b: Duration) -> (r: Option<Duration>)
    ensures
        match r {
            Some(d) => nanos(a) >= nanos(b) && nanos(d) == nanos(a) - nanos(b),
            None => nanos(a) < nanos(b),
        },
{
    a.checked_sub(b)
}

/// Trusted: `Duration::saturating_sub` returns the difference, or
/// `Duration::ZERO` when the difference would be negative.
#[verifier::external_body]
pub(crate) fn saturating_sub(a: Duration, b: Duration) -> (d: Duration)
    ensures
        nanos(d) == floored_difference(nanos(a), nanos(b)),
{
    a.saturating_sub(b)
}

/// Whether two durations hold the same time.
pub(crate) fn same(a: Duration, b: Duration) -> (r: bool)
    ensures
        r == (nanos(a) == nanos(b)),
{
    a.as_nanos() == b.as_nanos()
}

/// Whether `a` is strictly shorter than `b`.
pub(crate) fn shorter(a: Duration, b: Duration) -> (r: bool)
    ensures
        r == (nanos(a) < nanos(b)),
{
    a.as_nanos() < b.as_nanos()
}

} // verus!
