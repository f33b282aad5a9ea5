//! Instants measured as a whole number of seconds since the Unix Epoch,
//! plus a sub-second nanosecond part.

use vstd::prelude::*;

verus! {

/// The number of nanoseconds in one second.
pub const NANOS_PER_SEC: u32 = 1_000_000_000;

/// An instant in time: seconds since the Unix Epoch time plus a
/// nanosecond remainder below one second.
#[derive(Debug, Clone, Copy, PartialEq, Eq, Structural)]
pub struct Timestamp {
    secs: u64,
    nanos: u32,
}

impl Timestamp {
    /// The whole seconds of this instant.
    pub closed spec fn spec_secs(&self) -> u64 {
        self.secs
    }

    /// The sub-second nanoseconds of this instant.
    pub closed spec fn spec_nanos(&self) -> u32 {
        self.nanos
    }

    /// Whether this instant is strictly earlier than `other`.
    pub open spec fn spec_lt(self, other: Timestamp) -> bool {
        ||| self.spec_secs() < other.spec_secs()
        ||| (self.spec_secs() == other.spec_secs() && self.spec_nanos() < other.spec_nanos())
    }

    /// Well-formed: the nanosecond part is a strict remainder of a second.
    pub open spec fn wf(&self) -> bool {
        self.spec_nanos() < NANOS_PER_SEC
    }

    /// Creates an instant from seconds and nanoseconds, carrying whole
    /// seconds out of the nanosecond part.
    pub fn new(secs: u64, nanos: u32) -> (res: Timestamp)
        requires
            secs + nanos / NANOS_PER_SEC <= u64::MAX,
        ensures
            res.spec_secs() == secs + nanos / NANOS_PER_SEC,
            res.spec_nanos() == nanos % NANOS_PER_SEC,
            res.wf(),
    {
        let extra: u32 = nanos / NANOS_PER_SEC;
        Timestamp { secs: secs + extra as u64, nanos: nanos % NANOS_PER_SEC }
    }

    /// Returns the whole seconds of this instant.
    pub fn secs(&self) -> (res: u64)
        ensures
            res == self.spec_secs(),
    {
        self.secs
    }

    /// Returns the sub-second nanoseconds of this instant.
    pub fn nanos(&self) -> (res: u32)
        ensures
            res == self.spec_nanos(),
    {
        self.nanos
    }

    /// Reports whether this instant is strictly earlier than `other`.
    pub fn lt(&self, other: &Timestamp) -> (res: bool)
        ensures
            res == self.spec_lt(*other),
    {
        self.secs < other.secs || (self.secs == other.secs && self.nanos < other.nanos)
    }

    /// Returns this instant as a whole number of milliseconds since the
    /// Unix Epoch time, discarding any remainder below one millisecond.
    pub fn as_millis(&self) -> (res: u128)
        ensures
            res == self.spec_secs() * 1000 + self.spec_nanos() / 1_000_000,
    {
        self.secs as u128 * 1000 + (self.nanos / 1_000_000) as u128
    }
}

} // verus!
