//! Points in time, as the library sees them: whole nanoseconds since the
//! Unix epoch, read from the system clock at the library's edge.

use std::time::SystemTime;
use vstd::prelude::*;

verus! {

/// Nanoseconds in a second.
pub const NANOS_PER_SEC: u32 = 1_000_000_000;

#[verifier::external_type_specification]
#[verifier::external_body]
pub struct ExSystemTime(SystemTime);

/// The clock could not give a time at or after the Unix epoch.
#[derive(Debug, Clone, Copy, PartialEq, Eq, Hash, Structural)]
pub enum ClockError {
    /// The time asked about lies before the time it is measured from.
    BeforeEpoch,
}

/// A point in time at or after the Unix epoch, to the nanosecond.
#[derive(Debug, Clone, Copy, PartialEq, Eq, PartialOrd, Ord, Hash)]
pub struct UnixTime {
    secs: u64,
    nanos: u32,
}

/// A span of time between two points, to the nanosecond.
#[derive(Debug, Clone, Copy, PartialEq, Eq, PartialOrd, Ord, Hash)]
pub struct TimeSpan {
    secs: u64,
    nanos: u32,
}

impl View for UnixTime {
    type V = nat;

    /// Nanoseconds since the Unix epoch.
    closed spec fn view(&self) -> nat {
        (self.secs as nat) * 1_000_000_000 + self.nanos as nat
    }
}

impl View for TimeSpan {
    type V = nat;

    /// Length in nanoseconds.
    closed spec fn view(&self) -> nat {
        (self.secs as nat) * 1_000_000_000 + self.nanos as nat
    }
}

/// Calls `std::time::SystemTime::now`. Nothing is claimed of the time read.
#[verifier::external_body]
fn system_now() -> (now: SystemTime) {
    SystemTime::now()
}

/// Calls `std::time::SystemTime::duration_since` with the Unix epoch and
/// hands out the whole seconds and the nanoseconds beyond them. The contract
/// claims what the documentation of `Duration::subsec_nanos` says: the
/// fractional part is less than one second.
#[verifier::external_body]
fn since_epoch(t: &SystemTime) -> (elapsed: Result<(u64, u32), ClockError>)
    ensures
        elapsed is Ok ==> elapsed->Ok_0.1 < 1_000_000_000,
{
    match t.duration_since(SystemTime::UNIX_EPOCH) {
        Ok(d) => Ok((d.as_secs(), d.subsec_nanos())),
        Err(_) => Err(ClockError::BeforeEpoch),
    }
}

impl UnixTime {
    #[verifier::type_invariant]
    spec fn well_formed(self) -> bool {
        self.nanos < 1_000_000_000
    }

    /// The point `secs` seconds and `nanos` nanoseconds after the epoch, if
    /// `nanos` is less than a second.
    pub fn new(secs: u64, nanos: u32) -> (t: Option<UnixTime>)
        ensures
            t is Some <==> nanos < 1_000_000_000,
            t is Some ==> t->0@ == secs * 1_000_000_000 + nanos,
    {
        if nanos < NANOS_PER_SEC {
            Some(UnixTime { secs, nanos })
        } else {
            None
        }
    }

    /// The point `secs` whole seconds after the epoch.
    pub fn from_secs(secs: u64) -> (t: UnixTime)
        ensures
            t@ == secs * 1_000_000_000,
    {
        UnixTime { secs, nanos: 0 }
    }

    /// What the system clock reads now; an error if it reads a time before
    /// the epoch.
    pub fn now() -> (result: Result<UnixTime, ClockError>) {
        let t = system_now();
        match since_epoch(&t) {
            Ok((secs, nanos)) => Ok(UnixTime { secs, nanos }),
            Err(e) => Err(e),
        }
    }

    /// Whole seconds since the epoch.
    pub fn as_secs(&self) -> (secs: u64)
        ensures
            secs == self@ / 1_000_000_000,
    {
        proof {
            use_type_invariant(self);
        }
        self.secs
    }

    /// The nanoseconds beyond the whole seconds.
    pub fn subsec_nanos(&self) -> (nanos: u32)
        ensures
            nanos == self@ % 1_000_000_000,
    {
        proof {
            use_type_invariant(self);
        }
        self.nanos
    }

    /// Whether this point lies strictly before `other`.
    pub fn is_before(&self, other: &UnixTime) -> (before: bool)
        ensures
            before == (self@ < other@),
    {
        proof {
            use_type_invariant(self);
            use_type_invariant(other);
        }
        self.secs < other.secs || (self.secs == other.secs && self.nanos < other.nanos)
    }

    /// The time elapsed from `earlier` to this point; an error if `earlier`
    /// is in fact later.
    pub fn duration_since(&self, earlier: &UnixTime) -> (result: Result<TimeSpan, ClockError>)
        ensures
            result is Ok <==> earlier@ <= self@,
            result is Ok ==> result->Ok_0@ == self@ - earlier@,
    {
        proof {
            use_type_invariant(self);
            use_type_invariant(earlier);
        }
        if earlier.secs > self.secs || (earlier.secs == self.secs && earlier.nanos > self.nanos) {
            Err(ClockError::BeforeEpoch)
        } else if self.nanos >= earlier.nanos {
            Ok(TimeSpan { secs: self.secs - earlier.secs, nanos: self.nanos - earlier.nanos })
        } else {
            Ok(
                TimeSpan {
                    secs: self.secs - earlier.secs - 1,
                    nanos: self.nanos + NANOS_PER_SEC - earlier.nanos,
                },
            )
        }
    }

    /// The point one nanosecond before this one, if this is not the epoch.
    pub fn pred(&self) -> (t: Option<UnixTime>)
        ensures
            t is Some <==> self@ > 0,
            t is Some ==> t->0@ == self@ - 1,
    {
        proof {
            use_type_invariant(self);
        }
        if self.nanos > 0 {
            Some(UnixTime { secs: self.secs, nanos: self.nanos - 1 })
        } else if self.secs > 0 {
            Some(UnixTime { secs: self.secs - 1, nanos: NANOS_PER_SEC - 1 })
        } else {
            None
        }
    }
}

impl TimeSpan {
    #[verifier::type_invariant]
    spec fn well_formed(self) -> bool {
        self.nanos < 1_000_000_000
    }

    /// The span of `secs` seconds and `nanos` nanoseconds, if `nanos` is
    /// less than a second.
    pub fn new(secs: u64, nanos: u32) -> (span: Option<TimeSpan>)
        ensures
            span is Some <==> nanos < 1_000_000_000,
            span is Some ==> span->0@ == secs * 1_000_000_000 + nanos,
    {
        if nanos < NANOS_PER_SEC {
            Some(TimeSpan { secs, nanos })
        } else {
            None
        }
    }

    /// The nanoseconds beyond the whole seconds.
    pub fn subsec_nanos(&self) -> (nanos: u32)
        ensures
            nanos == self@ % 1_000_000_000,
    {
        proof {
            use_type_invariant(self);
        }
        self.nanos
    }

    /// The length of the span in whole seconds.
    pub fn as_secs(&self) -> (secs: u64)
        ensures
            secs == self@ / 1_000_000_000,
    {
        proof {
            use_type_invariant(self);
        }
        self.secs
    }

    /// The length of the span in nanoseconds.
    pub fn as_nanos(&self) -> (nanos: u128)
        ensures
            nanos == self@,
    {
        proof {
            use_type_invariant(self);
        }
        let secs: u128 = self.secs as u128;
        let nanos: u128 = self.nanos as u128;
        secs * 1_000_000_000 + nanos
    }
}

} // verus!
