//! The clocks that work with a stopwatch out of the box.

pub mod quanta_instant;
pub mod std_instant;
pub mod std_systemtime;
