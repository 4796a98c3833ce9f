//! Durations.

use vstd::prelude::*;

verus! {

/// Span of time, counted in microseconds.
#[derive(Debug, Clone, Copy, PartialEq, Eq)]
pub struct Duration {
    pub micros: u64,
}

impl Duration {
    /// Duration of the given number of seconds.
    pub fn from_secs(secs: u64) -> (res: Duration)
        requires
            secs * 1_000_000 <= u64::MAX,
        ensures
            res.micros == secs * 1_000_000,
    {
        Duration { micros: secs * 1_000_000 }
    }

    /// Duration of the given number of milliseconds.
    pub fn from_millis(millis: u64) -> (res: Duration)
        requires
            millis * 1_000 <= u64::MAX,
        ensures
            res.micros == millis * 1_000,
    {
        Duration { micros: millis * 1_000 }
    }

    /// Duration of the given number of microseconds.
    pub fn from_micros(micros: u64) -> (res: Duration)
        ensures
            res.micros == micros,
    {
        Duration { micros }
    }
}

} // verus!
