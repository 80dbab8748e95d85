//! Instants on the UTC time line, and the clock.
use vstd::prelude::*;
use vstd::std_specs::cmp::PartialOrdSpec;
use std::cmp::Ordering;
use chrono::{DateTime, Utc};

verus! {

/// Seconds since the epoch of the earliest instant that can be held,
/// the first second of the year -262143.
pub const MIN_SECS: i64 = -8_334_601_228_800;

/// Seconds since the epoch of the latest instant that can be held,
/// the last second of the year 262142.
pub const MAX_SECS: i64 = 8_210_266_876_799;

/// Nanoseconds in one second.
pub const NANOS_PER_SEC: u32 = 1_000_000_000;

/// Nanoseconds in one day of 86,400 seconds.
pub open spec fn nanos_per_day() -> int {
    86_400_000_000_000
}

/// Whether a count of seconds since the epoch and a count of nanoseconds within
/// that second name an instant that a [`Timestamp`] can hold.
pub open spec fn in_range(secs: i64, nanos: u32) -> bool {
    MIN_SECS <= secs <= MAX_SECS && nanos < NANOS_PER_SEC
}

/// The whole days in a span of `nanos` nanoseconds, rounded towards zero.
pub open spec fn whole_days(nanos: int) -> int {
    if nanos >= 0 {
        nanos / nanos_per_day()
    } else {
        -((-nanos) / nanos_per_day())
    }
}

/// An instant on the UTC time line with nanosecond resolution: whole seconds
/// since 1970-01-01 00:00:00 UTC, and the nanoseconds into that second.
/// Leap seconds have no representation of their own.
#[derive(Clone, Copy, PartialEq, Eq, Structural, Debug)]
pub struct Timestamp {
    secs: i64,
    nanos: u32,
}

impl View for Timestamp {
    type V = int;

    /// Nanoseconds since the epoch.
    open spec fn view(&self) -> int {
        self.secs() * 1_000_000_000 + self.nanos()
    }
}

impl Timestamp {
    /// Every timestamp lies in the range of instants that can be held.
    #[verifier::type_invariant]
    pub open spec fn wf(self) -> bool {
        in_range(self.secs(), self.nanos())
    }

    /// Whole seconds since the epoch.
    pub closed spec fn spec_secs(&self) -> i64 {
        self.secs
    }

    /// Nanoseconds into the second.
    pub closed spec fn spec_nanos(&self) -> u32 {
        self.nanos
    }

    /// The instant `nanos` nanoseconds into the second `secs` since the epoch,
    /// where that instant can be held.
    pub fn new(secs: i64, nanos: u32) -> (t: Option<Timestamp>)
        ensures
            t is Some <==> in_range(secs, nanos),
            t matches Some(t) ==> t.secs() == secs && t.nanos() == nanos,
    {
        if MIN_SECS <= secs && secs <= MAX_SECS && nanos < NANOS_PER_SEC {
            Some(Timestamp { secs, nanos })
        } else {
            None
        }
    }

    /// Whole seconds since the epoch.
    #[verifier::when_used_as_spec(spec_secs)]
    pub fn secs(&self) -> (s: i64)
        ensures
            s == self.secs(),
            MIN_SECS <= s <= MAX_SECS,
    {
        proof {
            use_type_invariant(self);
        }
        self.secs
    }

    /// Nanoseconds into the second.
    #[verifier::when_used_as_spec(spec_nanos)]
    pub fn nanos(&self) -> (n: u32)
        ensures
            n == self.nanos(),
            n < NANOS_PER_SEC,
    {
        proof {
            use_type_invariant(self);
        }
        self.nanos
    }

    /// Within the range, the order of the instants is the order of the pairs of
    /// seconds and nanoseconds, and equal instants are equal timestamps.
    pub proof fn lemma_order(self, other: Timestamp)
        requires
            self.wf(),
            other.wf(),
        ensures
            self@ < other@ <==> self.partial_cmp_spec(&other) == Some(Ordering::Less),
            self@ == other@ <==> self == other,
            self@ > other@ <==> self.partial_cmp_spec(&other) == Some(Ordering::Greater),
    {
    }

    /// No whole day lies between two instants exactly when they are less than
    /// one day apart.
    pub proof fn lemma_same_day(self, other: Timestamp)
        ensures
            whole_days(self@ - other@) == 0 <==> -nanos_per_day() < self@ - other@
                < nanos_per_day(),
    {
    }
}

/// Timestamps are compared as instants: the earlier one is the lesser.
impl PartialOrd for Timestamp {
    fn partial_cmp(&self, other: &Timestamp) -> (o: Option<Ordering>) {
        if self.secs < other.secs {
            Some(Ordering::Less)
        } else if self.secs > other.secs {
            Some(Ordering::Greater)
        } else if self.nanos < other.nanos {
            Some(Ordering::Less)
        } else if self.nanos > other.nanos {
            Some(Ordering::Greater)
        } else {
            Some(Ordering::Equal)
        }
    }
}

impl vstd::std_specs::cmp::PartialOrdSpecImpl for Timestamp {
    open spec fn obeys_partial_cmp_spec() -> bool {
        true
    }

    open spec fn partial_cmp_spec(&self, other: &Timestamp) -> Option<Ordering> {
        if self.secs() < other.secs() {
            Some(Ordering::Less)
        } else if self.secs() > other.secs() {
            Some(Ordering::Greater)
        } else if self.nanos() < other.nanos() {
            Some(Ordering::Less)
        } else if self.nanos() > other.nanos() {
            Some(Ordering::Greater)
        } else {
            Some(Ordering::Equal)
        }
    }
}

/// The reading of the system clock that `Utc::now` gives. It depends on the
/// machine, so nothing is claimed of it but that a timestamp can hold it:
/// `Utc::now` gives an instant of chrono's range, and none within a leap
/// second.
#[verifier::external_body]
pub(crate) fn clock_now() -> (now: Timestamp)
    ensures
        now.wf(),
{
    let t = Utc::now();
    Timestamp { secs: t.timestamp(), nanos: t.timestamp_subsec_nanos() }
}

/// The whole days from `earlier` to `later`, as `DateTime::signed_duration_since`
/// and `TimeDelta::num_days` count them: the exact span between the two
/// instants, cut down to whole days towards zero, so that it is negative where
/// `later` comes first.
#[verifier::external_body]
pub(crate) fn days_between(later: &Timestamp, earlier: &Timestamp) -> (days: i64)
    requires
        later.wf(),
        earlier.wf(),
    ensures
        days == whole_days(later@ - earlier@),
{
    let a = DateTime::from_timestamp(later.secs, later.nanos).unwrap();
    let b = DateTime::from_timestamp(earlier.secs, earlier.nanos).unwrap();
    a.signed_duration_since(b).num_days()
}

} // verus!
