//! A guard that ties the running of a stopwatch to the guard's own life.

use vstd::prelude::*;
use crate::error::Error;
use crate::instant::Instant;
use crate::stopwatch::StopwatchImpl;

verus! {

/// A running, guarded stopwatch. The guard borrows the stopwatch exclusively;
/// [releasing](Guard::release) the guard stops the stopwatch and ends the
/// borrow. A guard that goes out of scope unreleased leaves the stopwatch
/// running.
///
/// Guards are returned by the `StopwatchImpl` methods
/// [`guard`](StopwatchImpl::guard) and [`guard_at`](StopwatchImpl::guard_at).
///
/// A guard is [well formed](Guard::wf) while the stopwatch it guards is
/// running. [`Guard::new`], [`guard`](StopwatchImpl::guard) and
/// [`guard_at`](StopwatchImpl::guard_at) make well-formed guards only. The
/// borrow is a public field, so that a contract can speak of the stopwatch
/// that the guard will leave behind; who stops the stopwatch through that
/// field has a guard that is no longer well formed, and releasing it then
/// changes nothing.
#[must_use]
#[derive(Debug, Hash)]
pub struct Guard<'sw, I: Instant> {
    /// The guarded stopwatch, running when the guard is made.
    pub stopwatch: &'sw mut StopwatchImpl<I>,
}

impl<'sw, I: Instant> Guard<'sw, I> {
    /// The invariant of a guard: the stopwatch it guards is running.
    pub open spec fn wf(&self) -> bool {
        self.stopwatch@.is_running()
    }

    /// Returns a `Guard` to a running stopwatch.
    ///
    /// # Errors
    ///
    /// If the stopwatch is stopped, returns [`GuardNew`](Error::GuardNew)
    /// and leaves it as it is.
    pub fn new(sw: &'sw mut StopwatchImpl<I>) -> (r: Result<Self, Error>)
        ensures
            match r {
                Ok(guard) => old(sw)@.is_running() && guard.wf() && *guard.stopwatch == *old(sw)
                    && *final(guard.stopwatch) == *final(sw),
                Err(e) => e == Error::GuardNew && old(sw)@.is_stopped() && *final(sw) == *old(sw),
            },
    {
        if sw.is_running() {
            Ok(Guard { stopwatch: sw })
        } else {
            Err(Error::GuardNew)
        }
    }

    /// Returns a reference to the inner stopwatch.
    #[must_use]
    pub fn inner(&self) -> (r: &StopwatchImpl<I>)
        ensures
            *r == *old(self.stopwatch),
    {
        &*self.stopwatch
    }

    /// Releases the guard, stopping the guarded stopwatch at whatever
    /// instant the clock reports. A stopwatch that was stopped through the
    /// guard in the meantime is left as it is.
    pub fn release(self)
        ensures
            exists|now: I| final(self.stopwatch)@ == #[trigger] old(self.stopwatch)@.try_stop_at(now).1,
            final(self.stopwatch)@.is_stopped(),
            old(self.stopwatch)@.is_stopped() ==> *final(self.stopwatch) == *old(self.stopwatch),
    {
        self.release_at(I::now());
    }

    /// Releases the guard, stopping the guarded stopwatch as if the current
    /// time were `anchor`. A stopwatch that was stopped through the guard in
    /// the meantime is left as it is.
    pub fn release_at(self, anchor: I)
        ensures
            final(self.stopwatch)@ == old(self.stopwatch)@.try_stop_at(anchor).1,
            final(self.stopwatch)@.is_stopped(),
            old(self.stopwatch)@.is_running() ==> final(self.stopwatch)@ == old(self.stopwatch)@.stop_at(
                anchor,
            ),
            old(self.stopwatch)@.is_stopped() ==> *final(self.stopwatch) == *old(self.stopwatch),
    {
        let Guard { stopwatch } = self;
        let _ = stopwatch.stop_at(anchor);
    }
}

impl<I: Instant> PartialEq for Guard<'_, I> {
    /// Two guards are equal if the stopwatches they guard are.
    fn eq(&self, rhs: &Self) -> (r: bool) {
        *self.inner() == *rhs.inner()
    }
}

impl<I: Instant> vstd::std_specs::cmp::PartialEqSpecImpl for Guard<'_, I> {
    open spec fn obeys_eq_spec() -> bool {
        true
    }

    open spec fn eq_spec(&self, rhs: &Self) -> bool {
        self.stopwatch@.same_as(rhs.stopwatch@)
    }
}

impl<I: Instant> Eq for Guard<'_, I> {}

} // verus!
