//! Points in time and the spans between them.
//!
//! The engine keeps time as plain numbers: seconds and nanoseconds since the
//! Unix epoch. Only [`Timestamp::now`] reads the clock.

use vstd::prelude::*;

verus! {

/// The number of nanoseconds in a second.
pub const NANOS_PER_SEC: u32 = 1_000_000_000;

/// A point in time: seconds and nanoseconds since the Unix epoch.
#[derive(Debug, Clone, Copy, PartialEq, Eq)]
pub struct Timestamp {
    secs: u64,
    nanos: u32,
}

/// A length of time, in seconds and nanoseconds.
#[derive(Debug, Clone, Copy, PartialEq, Eq)]
pub struct TimeSpan {
    secs: u64,
    nanos: u32,
}

/// Reads the time since the Unix epoch off the system clock, with
/// `SystemTime::elapsed` on `UNIX_EPOCH`.
///
/// Trusted: the nanoseconds of a `Duration` are below one thousand million.
/// Nothing is claimed of the time itself. A clock set before the epoch reads
/// as the epoch.
#[verifier::external_body]
fn time_since_epoch() -> (r: (u64, u32))
    ensures
        r.1 < NANOS_PER_SEC,
{
    match std::time::UNIX_EPOCH.elapsed() {
        Ok(since) => (since.as_secs(), since.subsec_nanos()),
        Err(_) => (0, 0),
    }
}

impl Timestamp {
    #[verifier::type_invariant]
    spec fn normal(self) -> bool {
        self.nanos < NANOS_PER_SEC
    }

    /// The time since the epoch in nanoseconds.
    pub closed spec fn nanos_since_epoch(self) -> int {
        self.secs * 1_000_000_000 + self.nanos
    }

    /// Whether the nanoseconds past the whole second are less than a second,
    /// as they are of every point in time at run time.
    pub closed spec fn well_formed(self) -> bool {
        self.nanos < NANOS_PER_SEC
    }

    /// Two points in time that are equally far from the epoch are the same:
    /// a point in time rebuilt from its seconds and nanoseconds is the point itself.
    pub proof fn lemma_same_instant(self, other: Timestamp)
        requires
            self.well_formed(),
            other.well_formed(),
            self.nanos_since_epoch() == other.nanos_since_epoch(),
        ensures
            self == other,
    {
    }

    /// The point in time `secs` seconds and `nanos` nanoseconds after the
    /// epoch, where `nanos` is less than a second.
    pub fn new(secs: u64, nanos: u32) -> (r: Option<Timestamp>)
        ensures
            r is Some <==> nanos < NANOS_PER_SEC,
            r is Some ==> r->Some_0.nanos_since_epoch() == secs * 1_000_000_000 + nanos,
            r is Some ==> r->Some_0.well_formed(),
    {
        if nanos < NANOS_PER_SEC {
            Some(Timestamp { secs, nanos })
        } else {
            None
        }
    }

    /// The current time by the system clock.
    pub fn now() -> (r: Timestamp)
        ensures
            r.well_formed(),
    {
        let (secs, nanos) = time_since_epoch();
        Timestamp { secs, nanos }
    }

    /// The whole seconds since the epoch.
    pub fn secs(&self) -> (r: u64)
        ensures
            r == self.nanos_since_epoch() / 1_000_000_000,
            self.well_formed(),
    {
        proof {
            use_type_invariant(self);
        }
        self.secs
    }

    /// The nanoseconds past the whole second.
    pub fn subsec_nanos(&self) -> (r: u32)
        ensures
            r == self.nanos_since_epoch() % 1_000_000_000,
            r < NANOS_PER_SEC,
    {
        proof {
            use_type_invariant(self);
        }
        self.nanos
    }

    /// The time from `earlier` to `self`, or no time where `earlier` is the later.
    pub fn since(&self, earlier: &Timestamp) -> (r: TimeSpan)
        ensures
            self.nanos_since_epoch() >= earlier.nanos_since_epoch() ==> r.total_nanos()
                == self.nanos_since_epoch() - earlier.nanos_since_epoch(),
            self.nanos_since_epoch() < earlier.nanos_since_epoch() ==> r.total_nanos() == 0,
    {
        proof {
            use_type_invariant(self);
            use_type_invariant(earlier);
        }
        if self.secs < earlier.secs || (self.secs == earlier.secs && self.nanos < earlier.nanos) {
            TimeSpan { secs: 0, nanos: 0 }
        } else if self.nanos >= earlier.nanos {
            TimeSpan { secs: self.secs - earlier.secs, nanos: self.nanos - earlier.nanos }
        } else {
            TimeSpan {
                secs: self.secs - earlier.secs - 1,
                nanos: self.nanos + NANOS_PER_SEC - earlier.nanos,
            }
        }
    }
}

impl TimeSpan {
    #[verifier::type_invariant]
    spec fn normal(self) -> bool {
        self.nanos < NANOS_PER_SEC
    }

    /// The length of the span in nanoseconds.
    pub closed spec fn total_nanos(self) -> int {
        self.secs * 1_000_000_000 + self.nanos
    }

    /// The whole seconds of the span.
    pub open spec fn whole_secs(self) -> int {
        self.total_nanos() / 1_000_000_000
    }

    /// The span of `secs` seconds.
    pub fn from_secs(secs: u64) -> (r: TimeSpan)
        ensures
            r.total_nanos() == secs * 1_000_000_000,
            r.whole_secs() == secs,
    {
        TimeSpan { secs, nanos: 0 }
    }

    /// The whole seconds of the span.
    pub fn as_secs(&self) -> (r: u64)
        ensures
            r == self.whole_secs(),
    {
        proof {
            use_type_invariant(self);
        }
        self.secs
    }

    /// The nanoseconds past the whole second.
    pub fn subsec_nanos(&self) -> (r: u32)
        ensures
            r == self.total_nanos() % 1_000_000_000,
    {
        proof {
            use_type_invariant(self);
        }
        self.nanos
    }
}

} // verus!
