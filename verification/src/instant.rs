//! The clock capability a stopwatch is generic over.

use vstd::prelude::*;
use core::fmt::Debug;
use core::time::Duration;
use crate::duration;

verus! {

/// The time from `earlier` to `later` on one timeline, in nanoseconds; zero
/// when `later` is not after `earlier`.
pub open spec fn gap(later: int, earlier: int) -> nat {
    if later > earlier {
        (later - earlier) as nat
    } else {
        0
    }
}

/// Whether the clock has an instant at the given position: whether an
/// instant of the type lies there.
pub open spec fn representable<I: Instant>(position: int) -> bool {
    exists|t: I| #[trigger] t.position() == position
}

/// A timekeeping type: a point on the timeline of some clock.
///
/// The model of an instant is its [`position`](Instant::position), a whole
/// number of nanoseconds on the clock's timeline. The origin of the timeline
/// is the clock's own business; only differences of positions are observable.
/// A clock may count in ticks that are coarser than a nanosecond: of a
/// duration that is added to an instant or taken from it, only the part that
/// the clock [keeps](Instant::kept) moves the instant.
/// An implementation promises that its arithmetic agrees with that model.
/// Nothing is promised of [`now`](Instant::now): a clock may stand still or
/// run backwards between two readings.
pub trait Instant: Copy + Debug + Sized {
    /// Where on the clock's timeline this instant lies, in nanoseconds.
    ///
    /// A clock that is to be verified states this. The default says
    /// nothing: it is there so that a clock can be written without a
    /// verifier at hand.
    open spec fn position(self) -> int {
        arbitrary()
    }

    /// The part of a duration of `nanos` nanoseconds that the clock keeps
    /// when the duration is added to an instant or taken from one. A clock
    /// that counts nanoseconds keeps all of it, which is the default.
    open spec fn kept(nanos: nat) -> nat {
        nanos
    }

    /// Returns the current instant in time.
    fn now() -> Self;

    /// Returns the instant ahead of `self` by what the clock keeps of
    /// `duration`, or `None` exactly when the clock has no instant there.
    fn checked_add(&self, duration: Duration) -> (r: Option<Self>)
        ensures
            match r {
                Some(t) => t.position() == self.position() + Self::kept(duration::nanos(duration)),
                None => forall|t: Self| #[trigger]
                    t.position() != self.position() + Self::kept(duration::nanos(duration)),
            },
    ;

    /// Returns the instant previous to `self` by what the clock keeps of
    /// `duration`, or `None` exactly when the clock has no instant there.
    fn checked_sub(&self, duration: Duration) -> (r: Option<Self>)
        ensures
            match r {
                Some(t) => t.position() == self.position() - Self::kept(duration::nanos(duration)),
                None => forall|t: Self| #[trigger]
                    t.position() != self.position() - Self::kept(duration::nanos(duration)),
            },
    ;

    /// Returns the time that has elapsed from `earlier` to `self`, or a zero
    /// duration if `earlier` is ahead of `self`.
    fn saturating_duration_since(&self, earlier: Self) -> (d: Duration)
        ensures
            duration::nanos(d) == gap(self.position(), earlier.position()),
    ;
}

} // verus!
