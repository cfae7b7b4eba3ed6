//! The mathematical model of a stopwatch: its state and its transitions.
//!
//! Durations are natural numbers of nanoseconds, and an instant counts only
//! through its position on the timeline of its clock. Every contract of
//! [`StopwatchImpl`](crate::StopwatchImpl) is stated over this model.

use vstd::prelude::*;
use crate::duration;
use crate::error::Error;
use crate::instant;
use crate::instant::Instant;

verus! {

/// The state of a stopwatch: the time accumulated by its completed runs and,
/// while it runs, the instant of its latest start.
///
/// The state of a stopwatch that exists [fits](State::fits): a duration
/// holds what it has accumulated.
pub struct State<I> {
    /// Nanoseconds accumulated so far, the current run not included.
    pub elapsed: nat,
    /// The instant of the latest start; `None` while stopped.
    pub start: Option<I>,
}

/// The form under which two stopwatches are compared and hashed. It does not
/// depend on the time of observation.
pub enum CanonicalState {
    /// A stopped stopwatch, with the time it has accumulated.
    Stopped(nat),
    /// A running stopwatch, with the position at which a run that accounts
    /// for all of its elapsed time would have begun.
    Bounded(int),
    /// A running stopwatch for which the clock has no instant at that
    /// position.
    Unbounded,
}

impl<I: Instant> State<I> {
    /// A stopped stopwatch that has accumulated `elapsed`.
    pub open spec fn stopped(elapsed: nat) -> Self {
        State { elapsed, start: None }
    }

    /// A stopwatch that has accumulated `elapsed` and runs since `start`.
    pub open spec fn running(elapsed: nat, start: I) -> Self {
        State { elapsed, start: Some(start) }
    }

    /// Whether a duration can hold what the stopwatch has accumulated.
    pub open spec fn fits(self) -> bool {
        self.elapsed <= duration::MAX_NANOS
    }

    /// Whether the stopwatch runs: it does while it holds a start.
    pub open spec fn is_running(self) -> bool {
        self.start is Some
    }

    /// Whether the stopwatch is stopped: it is while it holds no start.
    pub open spec fn is_stopped(self) -> bool {
        self.start is None
    }

    /// The time the current run has lasted at `anchor`: zero while stopped,
    /// and zero when `anchor` lies before the start.
    pub open spec fn accrued_at(self, anchor: I) -> nat {
        match self.start {
            Some(start) => instant::gap(anchor.position(), start.position()),
            None => 0,
        }
    }

    /// The total time measured at `anchor`, however long: what was
    /// accumulated, and the time of the current run.
    pub open spec fn total_at(self, anchor: I) -> nat {
        self.elapsed + self.accrued_at(anchor)
    }

    /// The total time measured at `anchor`, if a duration can hold it.
    pub open spec fn checked_elapsed_at(self, anchor: I) -> Option<nat> {
        if self.total_at(anchor) <= duration::MAX_NANOS {
            Some(self.total_at(anchor))
        } else {
            None
        }
    }

    /// The total time measured at `anchor`, saturated to the longest
    /// duration where no duration can hold it.
    pub open spec fn elapsed_at(self, anchor: I) -> nat {
        duration::capped_sum(self.elapsed, self.accrued_at(anchor))
    }

    /// The state after a start at `anchor`: what was accumulated stays, and
    /// the run begins at `anchor`.
    pub open spec fn start_at(self, anchor: I) -> Self {
        State::running(self.elapsed, anchor)
    }

    /// The state after a stop at `anchor`: the time of the run is added to
    /// what was accumulated, saturating.
    pub open spec fn stop_at(self, anchor: I) -> Self {
        State::stopped(self.elapsed_at(anchor))
    }

    /// A request to start: granted to a stopped stopwatch, refused to a
    /// running one, which it leaves as it is.
    pub open spec fn try_start_at(self, anchor: I) -> (Result<(), Error>, Self) {
        if self.is_stopped() {
            (Ok(()), self.start_at(anchor))
        } else {
            (Err(Error::SwStart), self)
        }
    }

    /// A request to stop: granted to a running stopwatch, refused to a
    /// stopped one, which it leaves as it is.
    pub open spec fn try_stop_at(self, anchor: I) -> (Result<(), Error>, Self) {
        if self.is_running() {
            (Ok(()), self.stop_at(anchor))
        } else {
            (Err(Error::SwStop), self)
        }
    }

    /// A request to stop without saturating: refused to a stopped stopwatch;
    /// a running one stops if a duration can hold its total at `anchor`, and
    /// else stays as it is and reports `None`.
    pub open spec fn try_checked_stop_at(self, anchor: I) -> (Result<Option<()>, Error>, Self) {
        if self.is_stopped() {
            (Err(Error::SwStop), self)
        } else {
            match self.checked_elapsed_at(anchor) {
                Some(total) => (Ok(Some(())), State::stopped(total)),
                None => (Ok(None), self),
            }
        }
    }

    /// The state after a toggle at `anchor`: a running stopwatch stops, a
    /// stopped one starts.
    pub open spec fn toggle_at(self, anchor: I) -> Self {
        if self.is_running() {
            self.stop_at(anchor)
        } else {
            self.start_at(anchor)
        }
    }

    /// A toggle that does not saturate: a stopped stopwatch starts; a
    /// running one stops if a duration can hold its total at `anchor`, and
    /// else stays as it is and reports `None`.
    pub open spec fn try_checked_toggle_at(self, anchor: I) -> (Option<()>, Self) {
        if self.is_stopped() {
            (Some(()), self.start_at(anchor))
        } else {
            match self.checked_elapsed_at(anchor) {
                Some(total) => (Some(()), State::stopped(total)),
                None => (None, self),
            }
        }
    }

    /// The state after the elapsed time is set to `new` in place: a running
    /// stopwatch keeps running, from `anchor` on.
    pub open spec fn set_in_place_at(self, new: nat, anchor: I) -> Self {
        if self.is_running() {
            State::running(new, anchor)
        } else {
            State::stopped(new)
        }
    }

    /// `dur` more accumulated time, saturating.
    pub open spec fn saturating_add(self, dur: nat) -> Self {
        State { elapsed: duration::capped_sum(self.elapsed, dur), start: self.start }
    }

    /// `dur` more accumulated time, unless no duration can hold the sum.
    pub open spec fn checked_add(self, dur: nat) -> Option<Self> {
        if self.elapsed + dur <= duration::MAX_NANOS {
            Some(State { elapsed: self.elapsed + dur, start: self.start })
        } else {
            None
        }
    }

    /// The later of `anchor` and the latest start; `anchor` itself while
    /// stopped.
    pub open spec fn clamp(self, anchor: I) -> I {
        match self.start {
            Some(start) if anchor.position() < start.position() => start,
            _ => anchor,
        }
    }

    /// The state with the time of the current run folded into the
    /// accumulated time, saturating, and the run begun anew at `anchor` or at
    /// the latest start, whichever is later. A stopped stopwatch has nothing
    /// to fold.
    pub open spec fn saturating_sync_at(self, anchor: I) -> Self {
        if self.is_running() {
            State::running(self.elapsed_at(anchor), self.clamp(anchor))
        } else {
            self
        }
    }

    /// As [`saturating_sync_at`](Self::saturating_sync_at), unless no
    /// duration can hold the total at `anchor`.
    pub open spec fn checked_sync_at(self, anchor: I) -> Option<Self> {
        match self.checked_elapsed_at(anchor) {
            Some(total) => Some(State { elapsed: total, start: self.saturating_sync_at(anchor).start }),
            None => None,
        }
    }

    /// `dur` less elapsed time as measured at `anchor`, floored at zero: the
    /// current run is folded in first, so that none of it is lost.
    pub open spec fn saturating_sub_at(self, dur: nat, anchor: I) -> Self {
        let synced = self.saturating_sync_at(anchor);
        State { elapsed: duration::floored_difference(synced.elapsed, dur), start: synced.start }
    }

    /// `dur` less elapsed time as measured at `anchor`, unless no duration
    /// can hold the total at `anchor` or `dur` is longer than that total.
    pub open spec fn checked_sub_at(self, dur: nat, anchor: I) -> Option<Self> {
        match self.checked_sync_at(anchor) {
            Some(synced) if synced.elapsed >= dur => Some(
                State { elapsed: (synced.elapsed - dur) as nat, start: synced.start },
            ),
            _ => None,
        }
    }

    /// Whether `dur` can be taken off at whatever instant the clock reports:
    /// at every anchor up to which a duration holds the time of the current
    /// run, as it does up to every reading of the clock.
    pub open spec fn subtracts_at_every_reading(self, dur: nat) -> bool {
        forall|now: I|
            self.accrued_at(now) <= duration::MAX_NANOS ==> #[trigger] self.checked_sub_at(
                dur,
                now,
            ) is Some
    }

    /// The position at which the current run would have begun, had it
    /// accumulated all of the elapsed time by itself: the position of the
    /// latest start, moved back by what the clock keeps of the time that
    /// was accumulated before it.
    pub open spec fn origin(self) -> int
        recommends
            self.is_running(),
    {
        self.start->0.position() - I::kept(self.elapsed)
    }

    /// The form under which this stopwatch is compared and hashed.
    pub open spec fn canonical(self) -> CanonicalState {
        if self.is_stopped() {
            CanonicalState::Stopped(self.elapsed)
        } else if instant::representable::<I>(self.origin()) {
            CanonicalState::Bounded(self.origin())
        } else {
            CanonicalState::Unbounded
        }
    }

    /// Whether two stopwatches are equal. Stopped ones are equal if they
    /// have accumulated the same time. Running ones are equal if their runs
    /// have the same origin, or if the clock has an instant at neither
    /// origin. A stopped stopwatch never equals a running one.
    pub open spec fn same_as(self, other: Self) -> bool {
        if self.is_stopped() || other.is_stopped() {
            self.is_stopped() && other.is_stopped() && self.elapsed == other.elapsed
        } else if instant::representable::<I>(self.origin()) && instant::representable::<I>(other.origin()) {
            self.origin() == other.origin()
        } else {
            !instant::representable::<I>(self.origin()) && !instant::representable::<I>(other.origin())
        }
    }
}

} // verus!
