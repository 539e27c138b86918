//! Instants and the whole minutes between two of them.
use vstd::prelude::*;

verus! {

/// An instant: `secs` seconds and `nanos` nanoseconds after the Unix epoch.
#[derive(Clone, Copy, Debug, PartialEq, Eq, Structural)]
pub struct Timestamp {
    pub secs: i64,
    pub nanos: u32,
}

/// Nanoseconds in a second.
pub open spec fn nanos_per_second() -> int {
    1_000_000_000
}

/// Nanoseconds in a minute.
pub open spec fn nanos_per_minute() -> int {
    60 * nanos_per_second()
}

/// The whole minutes in a span of `nanos` nanoseconds, rounded toward zero.
pub open spec fn whole_minutes(nanos: int) -> int {
    if nanos >= 0 {
        nanos / nanos_per_minute()
    } else {
        -((-nanos) / nanos_per_minute())
    }
}

impl Timestamp {
    /// The instant as nanoseconds after the epoch.
    pub open spec fn as_nanos(self) -> int {
        self.secs * nanos_per_second() + self.nanos
    }

    /// The whole minutes from `earlier` to `self`, rounded toward zero;
    /// negative when `earlier` is the later of the two.
    pub open spec fn spec_minutes_since(self, earlier: Timestamp) -> int {
        whole_minutes(self.as_nanos() - earlier.as_nanos())
    }

    /// The whole minutes from `earlier` to `self`.
    pub fn minutes_since(&self, earlier: &Timestamp) -> (m: i128)
        ensures
            m == self.spec_minutes_since(*earlier),
    {
        let a: i128 = self.secs as i128 * 1_000_000_000 + self.nanos as i128;
        let b: i128 = earlier.secs as i128 * 1_000_000_000 + earlier.nanos as i128;
        let span: i128 = a - b;
        if span >= 0 {
            let up: u128 = span as u128;
            (up / 60_000_000_000) as i128
        } else {
            let down: u128 = (-span) as u128;
            -((down / 60_000_000_000) as i128)
        }
    }
}

} // verus!
