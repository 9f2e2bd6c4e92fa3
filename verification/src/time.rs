//! Moments in time, as seconds and nanoseconds since the Unix epoch.

use crate::outside;
use vstd::prelude::*;

verus! {

/// The first second that a [`Timestamp`] covers.
pub const MIN_SECS: i64 = -8_334_601_228_800;

/// The last second that a [`Timestamp`] covers.
pub const MAX_SECS: i64 = 8_210_266_876_799;

/// A moment in Universal Time.
#[derive(Clone, Copy, Debug, PartialEq, Eq, Structural)]
pub struct Timestamp {
    /// Whole seconds since the Unix epoch.
    pub secs: i64,
    /// Nanoseconds within that second.
    pub nanos: u32,
}

/// The number of milliseconds denotes a moment within the range covered.
pub open spec fn representable(millis: int) -> bool {
    MIN_SECS <= millis / 1000 <= MAX_SECS
}

/// The moment a number of milliseconds after the epoch.
pub open spec fn at_millis(millis: int) -> Timestamp {
    Timestamp { secs: (millis / 1000) as i64, nanos: ((millis % 1000) * 1_000_000) as u32 }
}

impl Timestamp {
    /// The moment lies within the range covered, and its nanoseconds within a second.
    pub open spec fn wf(self) -> bool {
        MIN_SECS <= self.secs <= MAX_SECS && self.nanos < 1_000_000_000
    }

    /// Whole milliseconds since the epoch, rounded down.
    pub open spec fn millis(self) -> int {
        self.secs * 1000 + self.nanos as int / 1_000_000
    }

    /// The moment with these seconds and nanoseconds, where there is one.
    pub fn new(secs: i64, nanos: u32) -> (r: Option<Timestamp>)
        ensures
            match r {
                Some(t) => t.wf() && t == (Timestamp { secs, nanos }),
                None => !(Timestamp { secs, nanos }).wf(),
            },
    {
        if MIN_SECS <= secs && secs <= MAX_SECS && nanos < 1_000_000_000 {
            Some(Timestamp { secs, nanos })
        } else {
            None
        }
    }

    /// The present moment.
    pub fn now() -> (now: Timestamp)
        ensures
            now.wf(),
    {
        outside::utc_now()
    }

    /// The moment a number of milliseconds after the epoch, where it is within the range covered.
    pub fn from_millis(millis: i64) -> (r: Option<Timestamp>)
        ensures
            match r {
                Some(t) => representable(millis as int) && t == at_millis(millis as int) && t.wf(),
                None => !representable(millis as int),
            },
    {
        outside::datetime_from_millis(millis)
    }

    /// Whole milliseconds since the epoch.
    pub fn timestamp_millis(&self) -> (millis: i64)
        requires
            self.wf(),
        ensures
            millis == self.millis(),
    {
        self.secs * 1000 + (self.nanos / 1_000_000) as i64
    }

    /// The moment in the notation of RFC 3339.
    pub fn to_rfc3339(&self) -> (text: String)
        requires
            self.wf(),
        ensures
            text@ == outside::rfc3339(self.secs as int, self.nanos as int),
    {
        outside::datetime_to_rfc3339(self)
    }
}

} // verus!
