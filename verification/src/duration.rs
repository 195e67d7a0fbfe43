//! Spans and points of time as requests carry them.

use vstd::prelude::*;

verus! {

/// The number of seconds a request stays valid when the caller sets no duration.
pub const DEFAULT_TRANSACTION_VALID_SECONDS: i64 = 120;

/// A span of time: whole seconds and the nanoseconds beyond them.
#[derive(Clone, Copy, Debug, PartialEq, Eq)]
pub struct Duration {
    pub seconds: i64,
    pub nanoseconds: i32,
}

/// A point in time: seconds since the Unix epoch and the nanoseconds beyond them.
#[derive(Clone, Copy, Debug, PartialEq, Eq)]
pub struct Timestamp {
    pub seconds: i64,
    pub nanos: i32,
}

impl Duration {
    /// The span of `seconds` whole seconds.
    pub fn seconds(seconds: i64) -> (d: Duration)
        ensures
            d == (Duration { seconds, nanoseconds: 0 }),
    {
        Duration { seconds, nanoseconds: 0 }
    }

    /// The span of `seconds` seconds and `nanoseconds` nanoseconds.
    pub fn new(seconds: i64, nanoseconds: i32) -> (d: Duration)
        ensures
            d == (Duration { seconds, nanoseconds }),
    {
        Duration { seconds, nanoseconds }
    }

    /// The whole seconds of this span.
    pub fn whole_seconds(&self) -> (s: i64)
        ensures
            s == self.seconds,
    {
        self.seconds
    }

    /// The nanoseconds of this span beyond its whole seconds.
    pub fn subsec_nanoseconds(&self) -> (n: i32)
        ensures
            n == self.nanoseconds,
    {
        self.nanoseconds
    }
}

/// The span a request stays valid when the caller sets none: 120 seconds.
pub fn default_transaction_valid_duration() -> (d: Duration)
    ensures
        d == (Duration { seconds: DEFAULT_TRANSACTION_VALID_SECONDS, nanoseconds: 0 }),
{
    Duration::seconds(DEFAULT_TRANSACTION_VALID_SECONDS)
}

impl Timestamp {
    /// The point `seconds` seconds and `nanos` nanoseconds after the Unix epoch.
    pub fn new(seconds: i64, nanos: i32) -> (t: Timestamp)
        ensures
            t == (Timestamp { seconds, nanos }),
    {
        Timestamp { seconds, nanos }
    }
}

} // verus!
