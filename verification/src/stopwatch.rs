//! The stopwatch.

use vstd::prelude::*;
use core::time::Duration;
use crate::duration;
use crate::error::Error;
use crate::guard::Guard;
use crate::instant::Instant;
use crate::model::State;

verus! {

/// A stopwatch measures and accumulates elapsed time between starts and
/// stops.
///
/// Stopwatches work with any type that implements [`Instant`].
#[derive(Debug)]
pub struct StopwatchImpl<I: Instant> {
    /// The time accumulated by the runs completed so far.
    pub elapsed: Duration,
    /// The instant at which the stopwatch was started, if it is running.
    /// Otherwise, `None`.
    pub start: Option<I>,
}

impl<I: Instant> Clone for StopwatchImpl<I> {
    fn clone(&self) -> (r: Self)
        ensures
            r == *self,
    {
        *self
    }
}

impl<I: Instant> Copy for StopwatchImpl<I> {}

impl<I: Instant> View for StopwatchImpl<I> {
    type V = State<I>;

    open spec fn view(&self) -> State<I> {
        State { elapsed: duration::nanos(self.elapsed), start: self.start }
    }
}

impl<I: Instant> StopwatchImpl<I> {
    /// Returns a stopped stopwatch with zero elapsed time.
    #[must_use]
    pub fn new() -> (r: Self)
        ensures
            r@ == State::<I>::stopped(0),
    {
        Self::with_elapsed(duration::zero())
    }

    /// Returns a running stopwatch initialized with zero elapsed time.
    #[must_use]
    pub fn new_started() -> (r: Self)
        ensures
            r@.is_running(),
            r@.elapsed == 0,
    {
        Self::with_elapsed_started(duration::zero())
    }

    /// Returns a stopwatch initialized with zero elapsed time, started at the
    /// given instant.
    #[must_use]
    pub fn new_started_at(start: I) -> (r: Self)
        ensures
            r@ == State::running(0, start),
    {
        Self::from_raw(duration::zero(), Some(start))
    }

    /// Returns a stopped stopwatch with the given elapsed time.
    #[must_use]
    pub fn with_elapsed(elapsed: Duration) -> (r: Self)
        ensures
            r@ == State::<I>::stopped(duration::nanos(elapsed)),
    {
        Self::from_raw(elapsed, None)
    }

    /// Returns a running stopwatch initialized with the given elapsed time.
    #[must_use]
    pub fn with_elapsed_started(elapsed: Duration) -> (r: Self)
        ensures
            r@.is_running(),
            r@.elapsed == duration::nanos(elapsed),
    {
        Self::from_raw(elapsed, Some(I::now()))
    }

    /// Returns a stopwatch from its raw parts: the time accumulated so far
    /// and, for a running stopwatch, the instant of its latest start.
    ///
    /// Two stopwatches made from different parts can still be equal: see
    /// [`State::same_as`].
    #[must_use]
    pub fn from_raw(elapsed: Duration, start: Option<I>) -> (r: Self)
        ensures
            r@ == (State { elapsed: duration::nanos(elapsed), start }),
    {
        StopwatchImpl { elapsed, start }
    }

    /// Returns `true` if the stopwatch is running.
    #[must_use]
    pub fn is_running(&self) -> (r: bool)
        ensures
            r == self@.is_running(),
    {
        self.start.is_some()
    }

    /// Returns `true` if the stopwatch is stopped.
    #[must_use]
    pub fn is_stopped(&self) -> (r: bool)
        ensures
            r == self@.is_stopped(),
            r == !self@.is_running(),
    {
        !self.is_running()
    }

    /// Returns the total time elapsed. If overflow occurs, the elapsed time
    /// is saturated to `Duration::MAX`.
    ///
    /// The reading is taken at whatever instant the clock reports.
    #[must_use]
    pub fn elapsed(&self) -> (r: Duration)
        ensures
            exists|now: I| duration::nanos(r) == #[trigger] self@.elapsed_at(now),
            self@.is_stopped() ==> duration::nanos(r) == self@.elapsed,
    {
        self.elapsed_at(I::now())
    }

    /// Returns the total time elapsed, measured as if the current time were
    /// `anchor`. If overflow occurs, the elapsed time is saturated to
    /// `Duration::MAX`.
    ///
    /// An `anchor` before the latest start counts as that start.
    #[must_use]
    pub fn elapsed_at(&self, anchor: I) -> (r: Duration)
        ensures
            duration::nanos(r) == self@.elapsed_at(anchor),
    {
        match self.checked_elapsed_at(anchor) {
            Some(total) => total,
            None => duration::longest(),
        }
    }

    /// Computes the total time elapsed. If overflow occurred, returns `None`.
    ///
    /// The reading is taken at whatever instant the clock reports.
    #[must_use]
    pub fn checked_elapsed(&self) -> (r: Option<Duration>)
        ensures
            exists|now: I| duration::nanos_of(r) == #[trigger] self@.checked_elapsed_at(now),
            self@.is_stopped() ==> duration::nanos_of(r) == Some(self@.elapsed),
    {
        self.checked_elapsed_at(I::now())
    }

    /// Computes the total time elapsed, measured as if the current time were
    /// `anchor`. If overflow occurred, returns `None`.
    ///
    /// An `anchor` before the latest start counts as that start.
    #[must_use]
    pub fn checked_elapsed_at(&self, anchor: I) -> (r: Option<Duration>)
        ensures
            duration::nanos_of(r) == self@.checked_elapsed_at(anchor),
    {
        let before_start = self.elapsed;
        match self.start {
            Some(start) => {
                let after_start = anchor.saturating_duration_since(start);
                duration::checked_add(before_start, after_start)
            },
            None => {
                Some(before_start)
            },
        }
    }

    /// Starts measuring the time elapsed.
    ///
    /// # Errors
    ///
    /// Returns [`SwStart`](Error::SwStart) if the stopwatch is running, and
    /// leaves it as it is.
    pub fn start(&mut self) -> (r: Result<(), Error>)
        ensures
            exists|now: I| (r, final(self)@) == #[trigger] old(self)@.try_start_at(now),
            r is Err ==> *final(self) == *old(self),
    {
        self.start_at(I::now())
    }

    /// Stops measuring the time elapsed since the last start. An overflow of
    /// the new elapsed time saturates to `Duration::MAX`.
    ///
    /// # Errors
    ///
    /// Returns [`SwStop`](Error::SwStop) if the stopwatch is already stopped,
    /// and leaves it as it is.
    pub fn stop(&mut self) -> (r: Result<(), Error>)
        ensures
            exists|now: I| (r, final(self)@) == #[trigger] old(self)@.try_stop_at(now),
            r is Err ==> *final(self) == *old(self),
    {
        self.stop_at(I::now())
    }

    /// Starts measuring the time elapsed as if the current time were
    /// `anchor`. An `anchor` in the future is accepted: the elapsed time then
    /// stands still until the clock catches up with it.
    ///
    /// # Errors
    ///
    /// Returns [`SwStart`](Error::SwStart) if the stopwatch is running, and
    /// leaves it as it is.
    pub fn start_at(&mut self, anchor: I) -> (r: Result<(), Error>)
        ensures
            (r, final(self)@) == old(self)@.try_start_at(anchor),
            r is Err ==> *final(self) == *old(self),
    {
        if self.is_stopped() {
            self.start = Some(anchor);
            Ok(())
        } else {
            Err(Error::SwStart)
        }
    }

    /// Stops measuring the time elapsed since the last start as if the
    /// current time were `anchor`. An `anchor` before the last start adds
    /// nothing; an overflow of the new elapsed time saturates to
    /// `Duration::MAX`.
    ///
    /// # Errors
    ///
    /// Returns [`SwStop`](Error::SwStop) if the stopwatch is already stopped,
    /// and leaves it as it is.
    pub fn stop_at(&mut self, anchor: I) -> (r: Result<(), Error>)
        ensures
            (r, final(self)@) == old(self)@.try_stop_at(anchor),
            r is Err ==> *final(self) == *old(self),
    {
        match self.start {
            Some(start) => {
                let after_start = anchor.saturating_duration_since(start);
                self.elapsed = duration::saturating_add(self.elapsed, after_start);
                self.start = None;
                Ok(())
            },
            None => Err(Error::SwStop),
        }
    }

    /// Tries to stop the stopwatch. If the new elapsed time overflows,
    /// returns `None` without mutating the stopwatch.
    ///
    /// # Errors
    ///
    /// Returns [`SwStop`](Error::SwStop) if the stopwatch is already stopped.
    pub fn checked_stop(&mut self) -> (r: Result<Option<()>, Error>)
        ensures
            exists|now: I| (r, final(self)@) == #[trigger] old(self)@.try_checked_stop_at(now),
            !(r matches Ok(Some(_))) ==> *final(self) == *old(self),
    {
        self.checked_stop_at(I::now())
    }

    /// Tries to stop the stopwatch, as if the current time were `anchor`. If
    /// the new elapsed time overflows, returns `None` without mutating the
    /// stopwatch. An `anchor` before the last start adds nothing.
    ///
    /// # Errors
    ///
    /// Returns [`SwStop`](Error::SwStop) if the stopwatch is already stopped.
    pub fn checked_stop_at(&mut self, anchor: I) -> (r: Result<Option<()>, Error>)
        ensures
            (r, final(self)@) == old(self)@.try_checked_stop_at(anchor),
            !(r matches Ok(Some(_))) ==> *final(self) == *old(self),
    {
        match self.start {
            Some(start) => {
                let after_start = anchor.saturating_duration_since(start);
                match duration::checked_add(self.elapsed, after_start) {
                    Some(total) => {
                        self.elapsed = total;
                        self.start = None;
                        Ok(Some(()))
                    },
                    None => Ok(None),
                }
            },
            None => Err(Error::SwStop),
        }
    }

    /// Toggles whether the stopwatch is running or stopped. A stop saturates
    /// as [`stop`](Self::stop) does.
    pub fn toggle(&mut self)
        ensures
            exists|now: I| final(self)@ == #[trigger] old(self)@.toggle_at(now),
    {
        self.toggle_at(I::now());
    }

    /// Toggles whether the stopwatch is running or stopped, as if the current
    /// time were `anchor`. A stop saturates as [`stop_at`](Self::stop_at)
    /// does.
    pub fn toggle_at(&mut self, anchor: I)
        ensures
            final(self)@ == old(self)@.toggle_at(anchor),
    {
        if self.is_running() {
            let _ = self.stop_at(anchor);
        } else {
            let _ = self.start_at(anchor);
        }
    }

    /// Tries to toggle whether the stopwatch is running or stopped. If the
    /// new elapsed time overflows, returns `None` without mutating the
    /// stopwatch.
    #[must_use]
    pub fn checked_toggle(&mut self) -> (r: Option<()>)
        ensures
            exists|now: I| (r, final(self)@) == #[trigger] old(self)@.try_checked_toggle_at(now),
            r is None ==> *final(self) == *old(self),
    {
        self.checked_toggle_at(I::now())
    }

    /// Tries to toggle whether the stopwatch is running or stopped, as if the
    /// current time were `anchor`. If the new elapsed time overflows, returns
    /// `None` without mutating the stopwatch.
    #[must_use]
    pub fn checked_toggle_at(&mut self, anchor: I) -> (r: Option<()>)
        ensures
            (r, final(self)@) == old(self)@.try_checked_toggle_at(anchor),
            r is None ==> *final(self) == *old(self),
    {
        if self.is_running() {
            match self.checked_stop_at(anchor) {
                Ok(stopped) => stopped,
                Err(_) => None,
            }
        } else {
            self.start = Some(anchor);
            Some(())
        }
    }

    /// Starts the stopwatch, returning a [`Guard`] which stops it again when
    /// released.
    ///
    /// # Errors
    ///
    /// Returns [`SwGuard`](Error::SwGuard) if the stopwatch is running, and
    /// leaves it as it is.
    pub fn guard(&mut self) -> (r: Result<Guard<'_, I>, Error>)
        ensures
            match r {
                Ok(guard) => old(self)@.is_stopped()
                    && guard.wf()
                    && guard.stopwatch@.elapsed == old(self)@.elapsed
                    && *final(guard.stopwatch) == *final(self),
                Err(e) => e == Error::SwGuard && old(self)@.is_running() && *final(self) == *old(
                    self,
                ),
            },
    {
        self.guard_at(I::now())
    }

    /// Starts the stopwatch as if the current time were `anchor`, returning
    /// a [`Guard`] which stops it again when released.
    ///
    /// # Errors
    ///
    /// Returns [`SwGuard`](Error::SwGuard) if the stopwatch is running, and
    /// leaves it as it is.
    pub fn guard_at(&mut self, anchor: I) -> (r: Result<Guard<'_, I>, Error>)
        ensures
            match r {
                Ok(guard) => old(self)@.is_stopped()
                    && guard.wf()
                    && guard.stopwatch@ == old(self)@.start_at(anchor)
                    && *final(guard.stopwatch) == *final(self),
                Err(e) => e == Error::SwGuard && old(self)@.is_running() && *final(self) == *old(
                    self,
                ),
            },
    {
        match self.start_at(anchor) {
            Ok(()) => Guard::new(self),
            Err(_) => Err(Error::SwGuard),
        }
    }

    /// Stops and resets the elapsed time to zero.
    pub fn reset(&mut self)
        ensures
            final(self)@ == State::<I>::stopped(0),
    {
        *self = Self::new();
    }

    /// Resets the elapsed time to zero without affecting whether the
    /// stopwatch is running. A running stopwatch runs on from whatever
    /// instant the clock reports.
    pub fn reset_in_place(&mut self)
        ensures
            exists|now: I| final(self)@ == #[trigger] old(self)@.set_in_place_at(0, now),
    {
        self.reset_in_place_at(I::now());
    }

    /// Resets the elapsed time to zero without affecting whether the
    /// stopwatch is running. A running stopwatch runs on from `start`.
    pub fn reset_in_place_at(&mut self, start: I)
        ensures
            final(self)@ == old(self)@.set_in_place_at(0, start),
    {
        self.set_in_place_at(duration::zero(), start);
    }

    /// Stops and sets the total elapsed time to `new`.
    pub fn set(&mut self, new: Duration)
        ensures
            final(self)@ == State::<I>::stopped(duration::nanos(new)),
    {
        *self = Self::with_elapsed(new);
    }

    /// Sets the total elapsed time to `new` without affecting whether the
    /// stopwatch is running. A running stopwatch runs on from whatever
    /// instant the clock reports.
    pub fn set_in_place(&mut self, new: Duration)
        ensures
            exists|now: I| final(self)@ == #[trigger] old(self)@.set_in_place_at(
                duration::nanos(new),
                now,
            ),
    {
        self.set_in_place_at(new, I::now());
    }

    /// Sets the total elapsed time to `new` as if the current time were
    /// `anchor`, and without affecting whether the stopwatch is running.
    pub fn set_in_place_at(&mut self, new: Duration, anchor: I)
        ensures
            final(self)@ == old(self)@.set_in_place_at(duration::nanos(new), anchor),
    {
        let was_running = self.is_running();
        self.set(new);
        if was_running {
            let _ = self.start_at(anchor);
        }
    }

    /// Stops and sets the total elapsed time to `new`, returning the previous
    /// elapsed time, read at whatever instant the clock reports.
    pub fn replace(&mut self, new: Duration) -> (r: Duration)
        ensures
            final(self)@ == State::<I>::stopped(duration::nanos(new)),
            exists|now: I| duration::nanos(r) == #[trigger] old(self)@.elapsed_at(now),
            old(self)@.is_stopped() ==> duration::nanos(r) == old(self)@.elapsed,
    {
        self.replace_at(new, I::now())
    }

    /// Stops and sets the total elapsed time to `new`, returning the previous
    /// elapsed time as if the current time were `anchor`.
    pub fn replace_at(&mut self, new: Duration, anchor: I) -> (r: Duration)
        ensures
            final(self)@ == State::<I>::stopped(duration::nanos(new)),
            duration::nanos(r) == old(self)@.elapsed_at(anchor),
    {
        let old = self.elapsed_at(anchor);
        self.set(new);
        old
    }

    /// Adds `dur` to the total elapsed time. If overflow occurred, the total
    /// elapsed time is set to `Duration::MAX`.
    #[must_use]
    pub fn saturating_add(self, dur: Duration) -> (r: Self)
        ensures
            r@ == self@.saturating_add(duration::nanos(dur)),
    {
        StopwatchImpl { elapsed: duration::saturating_add(self.elapsed, dur), start: self.start }
    }

    /// Subtracts `dur` from the total elapsed time, read at whatever instant
    /// the clock reports. If underflow occurred, the total elapsed time is
    /// set to `Duration::ZERO`.
    #[must_use]
    pub fn saturating_sub(self, dur: Duration) -> (r: Self)
        ensures
            exists|now: I| r@ == #[trigger] self@.saturating_sub_at(duration::nanos(dur), now),
    {
        self.saturating_sub_at(dur, I::now())
    }

    /// Subtracts `dur` from the total elapsed time, as if the current time
    /// were `anchor`. If underflow occurred, the total elapsed time is set to
    /// `Duration::ZERO`.
    ///
    /// The time of the current run up to `anchor` is folded into the elapsed
    /// time before `dur` is taken off, and the run goes on from `anchor`. An
    /// elapsed time that overflows in that step is clamped to `Duration::MAX`
    /// first. An `anchor` before the last start counts as that start.
    #[must_use]
    pub fn saturating_sub_at(self, dur: Duration, anchor: I) -> (r: Self)
        ensures
            r@ == self@.saturating_sub_at(duration::nanos(dur), anchor),
    {
        let anchor = self.saturate_anchor_to_start(anchor);
        let synced = self.saturating_sync_elapsed_at(anchor);
        StopwatchImpl { elapsed: duration::saturating_sub(synced.elapsed, dur), start: synced.start }
    }

    /// Adds `dur` to the total elapsed time. If overflow occurred, returns
    /// `None`.
    #[must_use]
    pub fn checked_add(self, dur: Duration) -> (r: Option<Self>)
        ensures
            Self::state_of(r) == self@.checked_add(duration::nanos(dur)),
    {
        match duration::checked_add(self.elapsed, dur) {
            Some(new) => Some(StopwatchImpl { elapsed: new, start: self.start }),
            None => None,
        }
    }

    /// Subtracts `dur` from the total elapsed time, read at whatever instant
    /// the clock reports. If overflow occurred, returns `None`.
    ///
    /// Whatever the reading, the clock has measured the time of the current
    /// run up to it, so a duration holds that time.
    #[must_use]
    pub fn checked_sub(self, dur: Duration) -> (r: Option<Self>)
        ensures
            exists|now: I|
                Self::state_of(r) == #[trigger] self@.checked_sub_at(duration::nanos(dur), now)
                    && self@.accrued_at(now) <= duration::MAX_NANOS,
    {
        self.checked_sub_at(dur, I::now())
    }

    /// Subtracts `dur` from the total elapsed time, as if the current time
    /// were `anchor`. Returns `None` if the elapsed time at `anchor`
    /// overflows, or if `dur` is longer than it.
    ///
    /// The time of the current run up to `anchor` is folded into the elapsed
    /// time before `dur` is taken off, and the run goes on from `anchor`. An
    /// `anchor` before the last start counts as that start. The clock
    /// measures the time of the run, so a duration holds it.
    #[must_use]
    pub fn checked_sub_at(self, dur: Duration, anchor: I) -> (r: Option<Self>)
        ensures
            Self::state_of(r) == self@.checked_sub_at(duration::nanos(dur), anchor),
            self@.accrued_at(anchor) <= duration::MAX_NANOS,
    {
        let anchor = self.saturate_anchor_to_start(anchor);
        match self.checked_sync_elapsed_at(anchor) {
            Some(synced) => match duration::checked_sub(synced.elapsed, dur) {
                Some(new) => Some(StopwatchImpl { elapsed: new, start: synced.start }),
                None => None,
            },
            None => None,
        }
    }

    /// Clamps `anchor` such that it does not lie before the latest start.
    fn saturate_anchor_to_start(&self, anchor: I) -> (r: I)
        ensures
            r == self@.clamp(anchor),
            self@.accrued_at(r) == self@.accrued_at(anchor),
            self@.accrued_at(anchor) <= duration::MAX_NANOS,
    {
        match self.start {
            Some(start) => {
                // Instants need not be ordered, so the two are told apart by
                // the time between them, measured in both directions.
                let future = anchor.saturating_duration_since(start);
                let past = start.saturating_duration_since(anchor);
                if duration::shorter(future, past) {
                    start
                } else {
                    anchor
                }
            },
            None => anchor,
        }
    }

    /// Folds the time of the current run up to `anchor` into the elapsed
    /// time, saturating, and lets the run go on from `anchor`.
    fn saturating_sync_elapsed_at(self, anchor: I) -> (r: Self)
        ensures
            r@.elapsed == self@.elapsed_at(anchor),
            r@.start == if self@.is_running() { Some(anchor) } else { None },
    {
        match self.start {
            Some(start) => {
                let after_start = anchor.saturating_duration_since(start);
                StopwatchImpl {
                    elapsed: duration::saturating_add(self.elapsed, after_start),
                    start: Some(anchor),
                }
            },
            None => self,
        }
    }

    /// Folds the time of the current run up to `anchor` into the elapsed
    /// time and lets the run go on from `anchor`, unless the elapsed time
    /// would overflow.
    fn checked_sync_elapsed_at(self, anchor: I) -> (r: Option<Self>)
        ensures
            match r {
                Some(synced) => self@.checked_elapsed_at(anchor) == Some(synced@.elapsed)
                    && synced@.start == if self@.is_running() { Some(anchor) } else { None },
                None => self@.checked_elapsed_at(anchor) is None,
            },
    {
        match self.start {
            Some(start) => {
                let after_start = anchor.saturating_duration_since(start);
                match duration::checked_add(self.elapsed, after_start) {
                    Some(total) => Some(StopwatchImpl { elapsed: total, start: Some(anchor) }),
                    None => None,
                }
            },
            None => Some(self),
        }
    }

    /// The state of an optional stopwatch.
    pub open spec fn state_of(sw: Option<Self>) -> Option<State<I>> {
        match sw {
            Some(sw) => Some(sw@),
            None => None,
        }
    }
}

impl<I: Instant> Default for StopwatchImpl<I> {
    /// Returns the default stopwatch. Same as calling
    /// [`StopwatchImpl::new`].
    fn default() -> (r: Self)
        ensures
            r@ == State::<I>::stopped(0),
    {
        Self::new()
    }
}

impl<I: Instant> vstd::std_specs::ops::AddSpecImpl<Duration> for StopwatchImpl<I> {
    /// The sum is stated by the `ensures` of `add` itself, over the view:
    /// `add_spec` says nothing.
    open spec fn obeys_add_spec() -> bool {
        false
    }

    /// The sum must not overflow.
    open spec fn add_req(self, dur: Duration) -> bool {
        self@.checked_add(duration::nanos(dur)) is Some
    }

    open spec fn add_spec(self, dur: Duration) -> Self {
        arbitrary()
    }
}

impl<I: Instant> core::ops::Add<Duration> for StopwatchImpl<I> {
    type Output = Self;

    /// Adds `dur` to `self`, as [`StopwatchImpl::checked_add`] does. The sum
    /// must not overflow: compiled without the verifier, this operator
    /// panics if it does.
    fn add(self, dur: Duration) -> (r: Self)
        ensures
            Some(r@) == self@.checked_add(duration::nanos(dur)),
    {
        self.checked_add(dur).expect("attempt to add stopwatch with overflow")
    }
}

impl<I: Instant> vstd::std_specs::ops::SubSpecImpl<Duration> for StopwatchImpl<I> {
    /// The difference is stated by the `ensures` of `sub` itself, over the
    /// view: `sub_spec` says nothing.
    open spec fn obeys_sub_spec() -> bool {
        false
    }

    /// The difference must be defined whatever instant the clock reports.
    open spec fn sub_req(self, dur: Duration) -> bool {
        self@.subtracts_at_every_reading(duration::nanos(dur))
    }

    open spec fn sub_spec(self, dur: Duration) -> Self {
        arbitrary()
    }
}

impl<I: Instant> core::ops::Sub<Duration> for StopwatchImpl<I> {
    type Output = Self;

    /// Subtracts `dur` from `self`, as [`StopwatchImpl::checked_sub`] does.
    /// The difference must be defined: compiled without the verifier, this
    /// operator panics if the elapsed time overflows or is shorter than
    /// `dur`.
    fn sub(self, dur: Duration) -> (r: Self)
        ensures
            exists|now: I| Some(r@) == #[trigger] self@.checked_sub_at(duration::nanos(dur), now),
    {
        self.checked_sub(dur).expect("attempt to subtract stopwatch with overflow")
    }
}

impl<I: Instant> core::ops::AddAssign<Duration> for StopwatchImpl<I> {
    /// Adds `dur` to `self` in place. The sum must not overflow.
    fn add_assign(&mut self, dur: Duration)
        requires
            old(self)@.checked_add(duration::nanos(dur)) is Some,
        ensures
            Some(final(self)@) == old(self)@.checked_add(duration::nanos(dur)),
    {
        *self = self.checked_add(dur).expect("attempt to add stopwatch with overflow");
    }
}

impl<I: Instant> core::ops::SubAssign<Duration> for StopwatchImpl<I> {
    /// Subtracts `dur` from `self` in place. The difference must be defined
    /// whatever instant the clock reports.
    fn sub_assign(&mut self, dur: Duration)
        requires
            old(self)@.subtracts_at_every_reading(duration::nanos(dur)),
        ensures
            exists|now: I| Some(final(self)@) == #[trigger] old(self)@.checked_sub_at(
                duration::nanos(dur),
                now,
            ),
    {
        *self = self.checked_sub(dur).expect("attempt to subtract stopwatch with overflow");
    }
}

} // verus!
