//! The canonical form of a stopwatch, by which stopwatches are compared and
//! hashed.
//!
//! A running stopwatch with elapsed time `d` and start `t` reads, at any
//! later time, the same as one with no elapsed time that started at `t - d`.
//! So `t - d` stands for all of them. Where the clock has no instant at
//! `t - d`, the stopwatch is unbounded, and all unbounded stopwatches count
//! as equal.
//!
//! The clock takes `d` from `t`, so `t - d` is as fine as the clock's ticks
//! are: on a clock that keeps only a part of `d`, stopwatches that differ by
//! less than a tick have one canonical form.

use vstd::prelude::*;
use core::hash::Hash;
use core::hash::Hasher;
use core::time::Duration;
use crate::duration;
use crate::instant::Instant;
use crate::laws;
use crate::model::CanonicalState;
use crate::stopwatch::StopwatchImpl;

verus! {

/// A stopwatch in canonical form.
pub(crate) enum Canonical<I: Instant> {
    /// Stopped, with the elapsed time.
    Stopped(Duration),
    /// Running, with the instant at which the run would have begun, had it
    /// accumulated all of the elapsed time by itself.
    Bounded(I),
    /// Running, and the clock has no such instant.
    Unbounded,
}

impl<I: Instant> View for Canonical<I> {
    type V = CanonicalState;

    closed spec fn view(&self) -> CanonicalState {
        match *self {
            Canonical::Stopped(elapsed) => CanonicalState::Stopped(duration::nanos(elapsed)),
            Canonical::Bounded(origin) => CanonicalState::Bounded(origin.position()),
            Canonical::Unbounded => CanonicalState::Unbounded,
        }
    }
}

/// Whether two instants lie at the same position. Instants need not be
/// comparable, so the time between them is measured in both directions.
pub(crate) fn instant_eq<I: Instant>(lhs: I, rhs: I) -> (r: bool)
    ensures
        r == (lhs.position() == rhs.position()),
{
    duration::same(lhs.saturating_duration_since(rhs), rhs.saturating_duration_since(lhs))
}

impl<I: Instant> Canonical<I> {
    /// Brings a stopwatch into canonical form.
    pub(crate) fn new(sw: &StopwatchImpl<I>) -> (r: Self)
        ensures
            r@ == sw@.canonical(),
    {
        match sw.start {
            None => Canonical::Stopped(sw.elapsed),
            Some(start) => match start.checked_sub(sw.elapsed) {
                Some(origin) => Canonical::Bounded(origin),
                None => Canonical::Unbounded,
            },
        }
    }

    /// Whether two canonical forms are the same.
    pub(crate) fn same(&self, rhs: &Self) -> (r: bool)
        ensures
            r == (self@ == rhs@),
    {
        match (self, rhs) {
            (Canonical::Stopped(lhs), Canonical::Stopped(rhs)) => duration::same(*lhs, *rhs),
            (Canonical::Bounded(lhs), Canonical::Bounded(rhs)) => instant_eq(*lhs, *rhs),
            (Canonical::Unbounded, Canonical::Unbounded) => true,
            _ => false,
        }
    }
}

/// Trusted: feeds `value` to the hasher through `Hash::hash`. What a hasher
/// makes of it is not modelled, so nothing is stated.
#[verifier::external_body]
fn feed<T: Hash, H: Hasher>(value: &T, state: &mut H)
{
    value.hash(state)
}

impl<I: Instant> PartialEq for StopwatchImpl<I> {
    /// Tests for equality between `self` and `rhs`.
    ///
    /// Stopwatches are equal if whether they are running and their elapsed
    /// time are equal. The outcome does not depend on when they are compared.
    fn eq(&self, rhs: &Self) -> (r: bool) {
        proof {
            laws::law_equal_iff_same_canonical_form(self@, rhs@);
        }
        Canonical::new(self).same(&Canonical::new(rhs))
    }
}

impl<I: Instant> vstd::std_specs::cmp::PartialEqSpecImpl for StopwatchImpl<I> {
    open spec fn obeys_eq_spec() -> bool {
        true
    }

    open spec fn eq_spec(&self, rhs: &Self) -> bool {
        self@.same_as(rhs@)
    }
}

impl<I: Instant> Eq for StopwatchImpl<I> {}

impl<I: Instant + Hash> Hash for StopwatchImpl<I> {
    /// Hashes the canonical form of the stopwatch: a tag for its kind, and
    /// then the elapsed time of a stopped stopwatch or the origin of a
    /// bounded one. Equal stopwatches have the same canonical form, so the
    /// hasher is fed alike for them wherever the clock hashes instants at
    /// one position alike.
    fn hash<H: Hasher>(&self, state: &mut H) {
        match Canonical::new(self) {
            Canonical::Stopped(elapsed) => {
                let tag: isize = 0;
                feed(&tag, state);
                feed(&elapsed, state);
            },
            Canonical::Bounded(origin) => {
                let tag: isize = 1;
                feed(&tag, state);
                feed(&origin, state);
            },
            Canonical::Unbounded => {
                let tag: isize = 2;
                feed(&tag, state);
            },
        }
    }
}

} // verus!
