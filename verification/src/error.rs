//! The errors a stopwatch operation can report.

use vstd::prelude::*;
use vstd::string::StringExecFns;

verus! {

/// A contract violation of the stopwatch state machine.
#[non_exhaustive]
#[derive(Clone, Copy, Debug, Hash, PartialEq, Eq, Structural)]
pub enum Error {
    /// A start was requested while the stopwatch was running.
    SwStart,
    /// A stop was requested while the stopwatch was stopped.
    SwStop,
    /// A guarded start was requested while the stopwatch was running.
    SwGuard,
    /// A guard was requested for a stopped stopwatch.
    GuardNew,
}

impl Error {
    /// Whether the operation that failed needed a running stopwatch.
    pub open spec fn spec_expects_running(&self) -> bool {
        *self == Error::SwStop || *self == Error::GuardNew
    }

    /// Returns `true` if the stopwatch was expected to be running.
    #[verifier::when_used_as_spec(spec_expects_running)]
    pub fn expects_running(&self) -> (r: bool)
        ensures
            r == self.spec_expects_running(),
    {
        match self {
            Error::SwStop | Error::GuardNew => true,
            Error::SwStart | Error::SwGuard => false,
        }
    }

    /// Whether the operation that failed needed a stopped stopwatch.
    pub open spec fn spec_expects_stopped(&self) -> bool {
        *self == Error::SwStart || *self == Error::SwGuard
    }

    /// Returns `true` if the stopwatch was expected to be stopped.
    #[verifier::when_used_as_spec(spec_expects_stopped)]
    pub fn expects_stopped(&self) -> (r: bool)
        ensures
            r == self.spec_expects_stopped(),
            r == !self.spec_expects_running(),
    {
        !self.expects_running()
    }

    /// What the failed operation did, in words.
    pub open spec fn verb(&self) -> Seq<char> {
        match *self {
            Error::SwStart => "started stopwatch"@,
            Error::SwStop => "stopped stopwatch"@,
            Error::SwGuard => "guarded stopwatch"@,
            Error::GuardNew => "created stopwatch guard"@,
        }
    }

    /// The name of a state of the stopwatch.
    pub open spec fn state_name(running: bool) -> Seq<char> {
        if running {
            "running"@
        } else {
            "stopped"@
        }
    }

    /// The text of [`message`](Error::message): what happened, in which
    /// state, and which state was expected instead.
    pub open spec fn spec_message(&self) -> Seq<char> {
        self.verb() + " while "@ + Self::state_name(!self.spec_expects_running())
            + ", but expected "@ + Self::state_name(self.spec_expects_running())
    }

    /// Explains what happened and what was expected instead.
    ///
    /// The exact text is meant for people and may change between versions.
    pub fn message(&self) -> (r: String)
        ensures
            r@ == self.spec_message(),
    {
        let verb = match self {
            Error::SwStart => "started stopwatch",
            Error::SwStop => "stopped stopwatch",
            Error::SwGuard => "guarded stopwatch",
            Error::GuardNew => "created stopwatch guard",
        };
        let state = state_to_str(!self.expects_running());
        let expected_state = state_to_str(self.expects_running());

        let mut text = String::from_str(verb);
        text.append(" while ");
        text.append(state);
        text.append(", but expected ");
        text.append(expected_state);
        text
    }
}

/// The name of a state of the stopwatch.
fn state_to_str(running: bool) -> (r: &'static str)
    ensures
        r@ == Error::state_name(running),
{
    if running {
        "running"
    } else {
        "stopped"
    }
}

} // verus!
