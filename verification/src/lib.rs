//! A stopwatch that accumulates elapsed time between starts and stops.
//!
//! [`StopwatchImpl`] offers checked stopping and arithmetic, precise control
//! over when operations occur, and works with any timekeeping type that
//! implements [`Instant`]. It is implemented for the clocks of the standard
//! library and of `quanta`; the aliases [`Sw`], [`SystemSw`] and
//! [`QuantaSw`] name the stopwatches over them.
//!
//! What a stopwatch does is stated over a mathematical [model] of its
//! state, and proved. What is taken on trust is the arithmetic of
//! `core::time::Duration` (see [duration]) and of the clocks themselves (see
//! [instant_impls]).

use vstd::prelude::*;

mod canonical;
pub mod duration;
pub mod error;
pub mod guard;
pub mod instant;
pub mod instant_impls;
pub mod laws;
pub mod model;
pub mod stopwatch;

pub use crate::error::Error;
pub use crate::guard::Guard;
pub use crate::instant::Instant;
pub use crate::stopwatch::StopwatchImpl;

verus! {

/// Alias to `Result<T, Error>`.
pub type Result<T> = core::result::Result<T, Error>;

/// Alias to [`StopwatchImpl`] using the standard library's
/// [`Instant`](std::time::Instant) type.
///
/// This is the "default" stopwatch.
pub type Sw = StopwatchImpl<std::time::Instant>;

/// Deprecated alias to the "default" stopwatch: use [`Sw`] instead.
pub type Stopwatch = Sw;

/// Alias to [`StopwatchImpl`] using the standard library's
/// [`SystemTime`](std::time::SystemTime) type.
pub type SystemSw = StopwatchImpl<std::time::SystemTime>;

/// Alias to [`StopwatchImpl`] using the `quanta` crate's
/// [`Instant`](quanta::Instant) type.
pub type QuantaSw = StopwatchImpl<quanta::Instant>;

} // verus!
