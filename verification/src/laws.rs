//! What holds of every stopwatch, proved over the model.

use vstd::prelude::*;
use core::time::Duration;
use crate::duration;
use crate::error::Error;
use crate::instant;
use crate::instant::Instant;
use crate::model::CanonicalState;
use crate::model::State;
use crate::stopwatch::StopwatchImpl;

verus! {

/// The state of every stopwatch fits: a duration holds what the stopwatch
/// has accumulated.
pub proof fn law_every_stopwatch_fits<I: Instant>(sw: StopwatchImpl<I>)
    ensures
        sw@.fits(),
{
}

/// Every instant lies at a position at which its clock has an instant.
pub proof fn law_every_instant_is_representable<I: Instant>(t: I)
    ensures
        instant::representable::<I>(t.position()),
{
}

/// A stopwatch is either running or stopped, and never both.
pub proof fn law_running_or_stopped<I: Instant>(s: State<I>)
    ensures
        s.is_running() != s.is_stopped(),
{
}

/// Whatever became of a request to start, the stopwatch is running after
/// it. A second request to start then fails, and changes nothing.
pub proof fn law_second_start_fails<I: Instant>(s: State<I>, first: I, second: I)
    ensures
        s.is_stopped() ==> s.try_start_at(first).0 is Ok,
        s.try_start_at(first).1.is_running(),
        s.try_start_at(first).1.elapsed == s.elapsed,
        s.try_start_at(first).1.try_start_at(second) == (
            Err::<(), Error>(Error::SwStart),
            s.try_start_at(first).1,
        ),
{
}

/// Whatever became of a request to stop, the stopwatch is stopped after it.
/// A second request to stop then fails, and changes nothing.
pub proof fn law_second_stop_fails<I: Instant>(s: State<I>, first: I, second: I)
    ensures
        s.is_running() ==> s.try_stop_at(first).0 is Ok,
        s.try_stop_at(first).1.is_stopped(),
        s.try_stop_at(first).1.try_stop_at(second) == (
            Err::<(), Error>(Error::SwStop),
            s.try_stop_at(first).1,
        ),
{
}

/// The elapsed time never shrinks as the anchor moves on: read at an anchor
/// that is not earlier, a stopwatch shows at least as much.
pub proof fn law_elapsed_is_monotone<I: Instant>(s: State<I>, earlier: I, later: I)
    requires
        earlier.position() <= later.position(),
    ensures
        s.elapsed_at(earlier) <= s.elapsed_at(later),
        s.checked_elapsed_at(later) is Some ==> s.checked_elapsed_at(earlier) is Some,
{
}

/// Checked and saturating addition agree wherever the checked one gives a
/// value: the two sums are the same stopwatch, and read the same at every
/// anchor. The checked one gives none exactly when the time accumulated so
/// far and `dur` together are longer than the longest duration; for a
/// stopped stopwatch, the time accumulated so far is what it reads at every
/// anchor.
pub proof fn law_checked_add_agrees_with_saturating<I: Instant>(
    sw: StopwatchImpl<I>,
    dur: Duration,
    anchor: I,
)
    ensures
        sw@.checked_add(duration::nanos(dur)) is None <==> sw@.elapsed + duration::nanos(dur)
            > duration::MAX_NANOS,
        sw@.checked_add(duration::nanos(dur)) matches Some(sum) ==> sum == sw@.saturating_add(
            duration::nanos(dur),
        ) && sum.elapsed_at(anchor) == sw@.saturating_add(duration::nanos(dur)).elapsed_at(anchor),
        sw@.checked_add(duration::nanos(dur)) is None ==> sw@.saturating_add(
            duration::nanos(dur),
        ).elapsed == duration::MAX_NANOS,
        sw@.is_stopped() ==> (sw@.checked_add(duration::nanos(dur)) is None <==> sw@.elapsed_at(
            anchor,
        ) + duration::nanos(dur) > duration::MAX_NANOS),
{
}

/// A toggle always takes effect: it leaves a running stopwatch stopped and a
/// stopped one running.
pub proof fn law_toggle_flips<I: Instant>(s: State<I>, anchor: I)
    ensures
        s.toggle_at(anchor).is_running() == s.is_stopped(),
        s.is_stopped() ==> s.toggle_at(anchor) == s.try_start_at(anchor).1,
        s.is_running() ==> s.toggle_at(anchor) == s.try_stop_at(anchor).1,
{
}

/// Equality of stopwatches is reflexive, symmetric and transitive.
pub proof fn law_equality_is_an_equivalence<I: Instant>(a: State<I>, b: State<I>, c: State<I>)
    ensures
        a.same_as(a),
        a.same_as(b) == b.same_as(a),
        a.same_as(b) && b.same_as(c) ==> a.same_as(c),
{
}

/// Two stopwatches are equal exactly when they have the same canonical form.
/// The canonical form is all that is hashed, so equal stopwatches feed a
/// hasher the same form.
pub proof fn law_equal_iff_same_canonical_form<I: Instant>(a: State<I>, b: State<I>)
    ensures
        a.same_as(b) <==> a.canonical() == b.canonical(),
{
}

/// Stopwatches that were started at one instant compare by what the clock
/// keeps of their elapsed times, whenever they are compared. Two that had
/// accumulated nothing at that instant are equal. One that had accumulated
/// nothing and one that had accumulated `dur` are equal only if the clock
/// keeps nothing of `dur`; a clock that counts nanoseconds keeps all of it.
pub proof fn law_started_together<I: Instant>(start: I, dur: nat)
    requires
        I::kept(0) == 0,
    ensures
        State::running(0, start).same_as(State::running(0, start)),
        State::running(0, start).same_as(State::running(dur, start)) <==> I::kept(dur) == 0,
{
    law_every_instant_is_representable(start);
}

/// Equal stopwatches read alike, whenever they are read: at every anchor
/// that lies before neither start, bounded stopwatches that are equal show
/// the same elapsed time, if the clock keeps all of what each has
/// accumulated. So a comparison, which takes no account of the time at which
/// it is made, says the same of every later time of observation.
pub proof fn law_equal_stopwatches_read_alike<I: Instant>(a: State<I>, b: State<I>, anchor: I)
    requires
        a.same_as(b),
        a.canonical() != CanonicalState::Unbounded,
        I::kept(a.elapsed) == a.elapsed,
        I::kept(b.elapsed) == b.elapsed,
        a.is_running() ==> a.start->0.position() <= anchor.position(),
        b.is_running() ==> b.start->0.position() <= anchor.position(),
    ensures
        a.is_running() == b.is_running(),
        a.total_at(anchor) == b.total_at(anchor),
        a.checked_elapsed_at(anchor) == b.checked_elapsed_at(anchor),
        a.elapsed_at(anchor) == b.elapsed_at(anchor),
{
}

/// Running stopwatches that show the same total at one anchor which lies
/// before neither start are equal, whatever parts they were made from, if
/// the clock keeps all of what each has accumulated.
pub proof fn law_stopwatches_that_read_alike_are_equal<I: Instant>(
    a: State<I>,
    b: State<I>,
    anchor: I,
)
    requires
        a.is_running(),
        b.is_running(),
        I::kept(a.elapsed) == a.elapsed,
        I::kept(b.elapsed) == b.elapsed,
        a.start->0.position() <= anchor.position(),
        b.start->0.position() <= anchor.position(),
        a.total_at(anchor) == b.total_at(anchor),
    ensures
        a.origin() == b.origin(),
        a.same_as(b),
{
}

/// Subtraction loses nothing of the current run: read at the anchor of the
/// subtraction, the stopwatch shows what it showed before, less `dur`, and
/// it runs on if it ran.
pub proof fn law_subtraction_keeps_the_run<I: Instant>(
    sw: StopwatchImpl<I>,
    dur: Duration,
    anchor: I,
)
    ensures
        sw@.saturating_sub_at(duration::nanos(dur), anchor).is_running() == sw@.is_running(),
        sw@.saturating_sub_at(duration::nanos(dur), anchor).elapsed_at(anchor)
            == duration::floored_difference(sw@.elapsed_at(anchor), duration::nanos(dur)),
        sw@.checked_sub_at(duration::nanos(dur), anchor) matches Some(t) ==> t.is_running()
            == sw@.is_running() && t.elapsed_at(anchor) == sw@.elapsed_at(anchor) - duration::nanos(
            dur,
        ),
        sw@.checked_sub_at(duration::nanos(dur), anchor) is None <==> sw@.checked_elapsed_at(
            anchor,
        ) is None || sw@.elapsed_at(anchor) < duration::nanos(dur),
{
}

/// A stop at an anchor that is not after the latest start adds nothing to
/// the elapsed time, and is no error: a stopwatch that had accumulated
/// `elapsed`, was started at `start` and is stopped at `anchor` has
/// accumulated `elapsed` exactly, and equals one that never ran.
pub proof fn law_early_stop_adds_nothing<I: Instant>(elapsed: Duration, start: I, anchor: I)
    requires
        anchor.position() <= start.position(),
    ensures
        State::<I>::stopped(duration::nanos(elapsed)).try_start_at(start).1.try_stop_at(anchor) == (
            Ok::<(), Error>(()),
            State::<I>::stopped(duration::nanos(elapsed)),
        ),
        State::<I>::stopped(duration::nanos(elapsed)).try_start_at(start).1.try_stop_at(
            anchor,
        ).1.same_as(State::<I>::stopped(duration::nanos(elapsed))),
{
}

} // verus!
