//! Points in time and spans between them, counted in nanoseconds.

use vstd::prelude::*;

verus! {

/// Nanoseconds in one second.
pub const NANOS_PER_SEC: u32 = 1_000_000_000;

/// A span of time, never negative.
#[derive(Clone, Copy, Debug, PartialEq, Eq)]
pub struct Duration {
    secs: u64,
    nanos: u32,
}

impl Duration {
    #[verifier::type_invariant]
    spec fn wf(self) -> bool {
        self.nanos < NANOS_PER_SEC
    }

    /// The length of the span in nanoseconds.
    pub closed spec fn as_nanos(self) -> int {
        self.secs * 1_000_000_000 + self.nanos
    }

    /// The span of `secs` whole seconds.
    pub fn from_secs(secs: u64) -> (span: Duration)
        ensures
            span.as_nanos() == secs * 1_000_000_000,
    {
        Duration { secs, nanos: 0 }
    }

    /// The span of `millis` milliseconds.
    pub fn from_millis(millis: u64) -> (span: Duration)
        ensures
            span.as_nanos() == millis * 1_000_000,
    {
        Duration { secs: millis / 1000, nanos: (millis % 1000) as u32 * 1_000_000 }
    }

    /// The span of `secs` seconds and `nanos` nanoseconds, if `nanos` is less than a second.
    pub fn new(secs: u64, nanos: u32) -> (span: Option<Duration>)
        ensures
            span is Some <==> nanos < NANOS_PER_SEC,
            span matches Some(s) ==> s.as_nanos() == secs * 1_000_000_000 + nanos,
    {
        if nanos < NANOS_PER_SEC {
            Some(Duration { secs, nanos })
        } else {
            None
        }
    }

    /// Whether this span is longer than `other`.
    pub fn exceeds(self, other: Duration) -> (longer: bool)
        ensures
            longer == (self.as_nanos() > other.as_nanos()),
    {
        proof {
            use_type_invariant(self);
            use_type_invariant(other);
        }
        self.secs > other.secs || (self.secs == other.secs && self.nanos > other.nanos)
    }
}

impl Default for Duration {
    /// The empty span.
    fn default() -> (span: Duration)
        ensures
            span.as_nanos() == 0,
    {
        Duration { secs: 0, nanos: 0 }
    }
}

/// A point in time on a clock that counts signed 64-bit seconds from the Unix epoch.
#[derive(Clone, Copy, Debug, PartialEq, Eq)]
pub struct SystemTime {
    secs: i64,
    nanos: u32,
}

/// Whether the clock can read `unix_nanos` nanoseconds after the Unix epoch.
pub open spec fn representable(unix_nanos: int) -> bool {
    i64::MIN * 1_000_000_000 <= unix_nanos < (i64::MAX + 1) * 1_000_000_000
}

impl SystemTime {
    #[verifier::type_invariant]
    spec fn wf(self) -> bool {
        self.nanos < NANOS_PER_SEC
    }

    /// Nanoseconds from the Unix epoch to this point; negative before the epoch.
    pub closed spec fn unix_nanos(self) -> int {
        self.secs * 1_000_000_000 + self.nanos
    }

    /// The point `secs` seconds and a further `nanos` nanoseconds from the Unix epoch, if
    /// `nanos` is less than a second.
    pub fn new(secs: i64, nanos: u32) -> (time: Option<SystemTime>)
        ensures
            time is Some <==> nanos < NANOS_PER_SEC,
            time matches Some(t) ==> t.unix_nanos() == secs * 1_000_000_000 + nanos,
    {
        if nanos < NANOS_PER_SEC {
            Some(SystemTime { secs, nanos })
        } else {
            None
        }
    }

    /// The point `secs` seconds from the Unix epoch.
    pub fn from_unix_secs(secs: i64) -> (time: SystemTime)
        ensures
            time.unix_nanos() == secs * 1_000_000_000,
    {
        SystemTime { secs, nanos: 0 }
    }

    /// The point `span` later, if the clock can read it.
    pub fn checked_add(self, span: Duration) -> (time: Option<SystemTime>)
        ensures
            time is Some <==> representable(self.unix_nanos() + span.as_nanos()),
            time matches Some(t) ==> t.unix_nanos() == self.unix_nanos() + span.as_nanos(),
    {
        proof {
            use_type_invariant(self);
            use_type_invariant(span);
        }
        let mut secs: i128 = self.secs as i128 + span.secs as i128;
        let mut nanos: u32 = self.nanos + span.nanos;
        if nanos >= NANOS_PER_SEC {
            nanos = nanos - NANOS_PER_SEC;
            secs = secs + 1;
        }
        if secs <= i64::MAX as i128 {
            Some(SystemTime { secs: secs as i64, nanos })
        } else {
            None
        }
    }

    /// The point `span` earlier, if the clock can read it.
    pub fn checked_sub(self, span: Duration) -> (time: Option<SystemTime>)
        ensures
            time is Some <==> representable(self.unix_nanos() - span.as_nanos()),
            time matches Some(t) ==> t.unix_nanos() == self.unix_nanos() - span.as_nanos(),
    {
        proof {
            use_type_invariant(self);
            use_type_invariant(span);
        }
        let mut secs: i128 = self.secs as i128 - span.secs as i128;
        let mut nanos: u32 = self.nanos;
        if nanos < span.nanos {
            nanos = nanos + NANOS_PER_SEC;
            secs = secs - 1;
        }
        if secs >= i64::MIN as i128 {
            Some(SystemTime { secs: secs as i64, nanos: nanos - span.nanos })
        } else {
            None
        }
    }

    /// The span from `earlier` to this point, if `earlier` is not in fact later.
    pub fn duration_since(self, earlier: SystemTime) -> (span: Option<Duration>)
        ensures
            span is Some <==> earlier.unix_nanos() <= self.unix_nanos(),
            span matches Some(s) ==> s.as_nanos() == self.unix_nanos() - earlier.unix_nanos(),
    {
        proof {
            use_type_invariant(self);
            use_type_invariant(earlier);
        }
        let secs: i128 = self.secs as i128 - earlier.secs as i128;
        if secs < 0 || (secs == 0 && self.nanos < earlier.nanos) {
            None
        } else if self.nanos >= earlier.nanos {
            Some(Duration { secs: secs as u64, nanos: self.nanos - earlier.nanos })
        } else {
            Some(Duration {
                secs: (secs - 1) as u64,
                nanos: self.nanos + NANOS_PER_SEC - earlier.nanos,
            })
        }
    }

    /// Whole seconds since the Unix epoch, or `None` before it.
    pub fn unix_secs(self) -> (secs: Option<i64>)
        ensures
            secs is Some <==> self.unix_nanos() >= 0,
            secs matches Some(s) ==> s == self.unix_nanos() / 1_000_000_000,
    {
        proof {
            use_type_invariant(self);
        }
        if self.secs >= 0 {
            Some(self.secs)
        } else {
            None
        }
    }
}

} // verus!
