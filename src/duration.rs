//! A non-negative span of time, counted in nanoseconds.
use vstd::prelude::*;

verus! {

pub const NANOS_PER_MILLI: u128 = 1_000_000;

pub const NANOS_PER_SECOND: u128 = 1_000_000_000;

/// A span of time, held as a whole number of nanoseconds.
#[derive(Debug, Clone, Copy, PartialEq, Eq, Structural)]
pub struct Duration {
    pub nanoseconds: u128,
}

impl Duration {
    pub open spec fn whole_seconds_spec(self) -> nat {
        (self.nanoseconds / NANOS_PER_SECOND) as nat
    }

    pub open spec fn whole_milliseconds_spec(self) -> nat {
        (self.nanoseconds / NANOS_PER_MILLI) as nat
    }

    /// `seconds` seconds and `nanoseconds` nanoseconds.
    pub fn new(seconds: u64, nanoseconds: u32) -> (r: Self)
        ensures
            r.nanoseconds == seconds * NANOS_PER_SECOND + nanoseconds,
    {
        Duration { nanoseconds: seconds as u128 * NANOS_PER_SECOND + nanoseconds as u128 }
    }

    pub fn seconds(seconds: u64) -> (r: Self)
        ensures
            r.nanoseconds == seconds * NANOS_PER_SECOND,
    {
        Duration { nanoseconds: seconds as u128 * NANOS_PER_SECOND }
    }

    pub fn milliseconds(milliseconds: u64) -> (r: Self)
        ensures
            r.nanoseconds == milliseconds * NANOS_PER_MILLI,
    {
        Duration { nanoseconds: milliseconds as u128 * NANOS_PER_MILLI }
    }

    pub fn hours(hours: u64) -> (r: Self)
        ensures
            r.nanoseconds == hours * 3600 * NANOS_PER_SECOND,
    {
        Duration { nanoseconds: hours as u128 * 3600 * NANOS_PER_SECOND }
    }

    pub fn days(days: u64) -> (r: Self)
        ensures
            r.nanoseconds == days * 86400 * NANOS_PER_SECOND,
    {
        Duration { nanoseconds: days as u128 * 86400 * NANOS_PER_SECOND }
    }

    pub fn whole_seconds(&self) -> (r: u128)
        ensures
            r == self.whole_seconds_spec(),
    {
        self.nanoseconds / NANOS_PER_SECOND
    }

    pub fn whole_milliseconds(&self) -> (r: u128)
        ensures
            r == self.whole_milliseconds_spec(),
    {
        self.nanoseconds / NANOS_PER_MILLI
    }
}

} // verus!
