//! Lengths of time: offsets into a track, dwell times, tolerances.

use vstd::prelude::*;

verus! {

/// Nanoseconds in one second.
pub const NANOS_PER_SEC: u32 = 1_000_000_000;

/// Nanoseconds in one millisecond.
pub const NANOS_PER_MILLI: u32 = 1_000_000;

/// Nanoseconds in one microsecond.
pub const NANOS_PER_MICRO: u32 = 1_000;

/// The longest span that a `TimeSpan` can hold, in nanoseconds.
pub open spec fn max_nanos() -> nat {
    (u64::MAX as nat) * 1_000_000_000 + 999_999_999
}

/// A non-negative length of time with nanosecond resolution.
///
/// It is held as whole seconds and the nanoseconds of the started second, so
/// it covers exactly the range of `std::time::Duration`. Its view is the
/// length in nanoseconds.
#[derive(Clone, Copy, Debug, PartialEq, Eq, Structural)]
pub struct TimeSpan {
    secs: u64,
    nanos: u32,
}

impl View for TimeSpan {
    type V = nat;

    closed spec fn view(&self) -> nat {
        (self.secs as nat) * 1_000_000_000 + self.nanos as nat
    }
}

impl TimeSpan {
    #[verifier::type_invariant]
    spec fn subsecond(self) -> bool {
        self.nanos < NANOS_PER_SEC
    }

    /// The empty span.
    pub fn zero() -> (r: TimeSpan)
        ensures
            r@ == 0,
    {
        TimeSpan { secs: 0, nanos: 0 }
    }

    /// The span of `secs` seconds and `nanos` nanoseconds. Nanoseconds beyond
    /// a full second carry into the seconds, which must stay within `u64`.
    pub fn new(secs: u64, nanos: u32) -> (r: TimeSpan)
        requires
            secs + nanos / NANOS_PER_SEC <= u64::MAX,
        ensures
            r@ == secs * 1_000_000_000 + nanos,
    {
        let carry: u32 = nanos / NANOS_PER_SEC;
        let rest: u32 = nanos % NANOS_PER_SEC;
        TimeSpan { secs: secs + carry as u64, nanos: rest }
    }

    /// As `new`, but `None` where the carried seconds leave `u64`.
    pub fn from_parts(secs: u64, nanos: u32) -> (r: Option<TimeSpan>)
        ensures
            r is Some <==> secs + nanos / NANOS_PER_SEC <= u64::MAX,
            r matches Some(t) ==> t@ == secs * 1_000_000_000 + nanos,
    {
        let carry: u32 = nanos / NANOS_PER_SEC;
        if secs > u64::MAX - carry as u64 {
            None
        } else {
            Some(TimeSpan::new(secs, nanos))
        }
    }

    /// The span of `secs` whole seconds.
    pub fn from_secs(secs: u64) -> (r: TimeSpan)
        ensures
            r@ == secs * 1_000_000_000,
    {
        TimeSpan { secs, nanos: 0 }
    }

    /// The span of `millis` milliseconds.
    pub fn from_millis(millis: u64) -> (r: TimeSpan)
        ensures
            r@ == millis * 1_000_000,
    {
        let sub: u32 = (millis % 1_000) as u32;
        TimeSpan { secs: millis / 1_000, nanos: sub * NANOS_PER_MILLI }
    }

    /// The span of `micros` microseconds.
    pub fn from_micros(micros: u64) -> (r: TimeSpan)
        ensures
            r@ == micros * 1_000,
    {
        let sub: u32 = (micros % 1_000_000) as u32;
        TimeSpan { secs: micros / 1_000_000, nanos: sub * NANOS_PER_MICRO }
    }

    /// The whole seconds of the span.
    pub fn secs(&self) -> (r: u64)
        ensures
            r == self@ / 1_000_000_000,
    {
        proof {
            use_type_invariant(self);
        }
        self.secs
    }

    /// The nanoseconds of the started second, always below one second.
    pub fn subsec_nanos(&self) -> (r: u32)
        ensures
            r == self@ % 1_000_000_000,
            r < NANOS_PER_SEC,
    {
        proof {
            use_type_invariant(self);
        }
        self.nanos
    }

    /// The span in nanoseconds.
    pub fn as_nanos(&self) -> (r: u128)
        ensures
            r == self@,
            r <= max_nanos(),
    {
        proof {
            use_type_invariant(self);
        }
        self.secs as u128 * 1_000_000_000 + self.nanos as u128
    }

    /// The whole milliseconds of the span.
    pub fn as_millis(&self) -> (r: u128)
        ensures
            r == self@ / 1_000_000,
    {
        self.as_nanos() / 1_000_000
    }

    /// The span of `nanos` nanoseconds, or `None` where that is longer than any span.
    pub fn from_nanos(nanos: u128) -> (r: Option<TimeSpan>)
        ensures
            r is Some <==> nanos <= max_nanos(),
            r matches Some(t) ==> t@ == nanos,
    {
        let secs: u128 = nanos / 1_000_000_000;
        if secs > u64::MAX as u128 {
            None
        } else {
            Some(TimeSpan { secs: secs as u64, nanos: (nanos % 1_000_000_000) as u32 })
        }
    }

    /// `self - earlier`, or `None` where `earlier` is the longer one.
    pub fn checked_sub(&self, earlier: &TimeSpan) -> (r: Option<TimeSpan>)
        ensures
            r is Some <==> self@ >= earlier@,
            r matches Some(d) ==> d@ == self@ - earlier@,
    {
        let a: u128 = self.as_nanos();
        let b: u128 = earlier.as_nanos();
        if a < b {
            None
        } else {
            TimeSpan::from_nanos(a - b)
        }
    }

    /// `self - earlier`, or the empty span where `earlier` is the longer one.
    pub fn saturating_sub(&self, earlier: &TimeSpan) -> (r: TimeSpan)
        ensures
            r@ == if self@ >= earlier@ { self@ - earlier@ } else { 0 },
    {
        match self.checked_sub(earlier) {
            Some(d) => d,
            None => TimeSpan::zero(),
        }
    }

    /// Whether `self` is the longer of the two.
    pub fn exceeds(&self, other: &TimeSpan) -> (r: bool)
        ensures
            r == (self@ > other@),
    {
        self.as_nanos() > other.as_nanos()
    }

    /// Whether `self` is longer than `other` by more than `margin`.
    pub fn exceeds_by(&self, other: &TimeSpan, margin: &TimeSpan) -> (r: bool)
        ensures
            r == (self@ > other@ + margin@),
    {
        self.as_nanos() > other.as_nanos() + margin.as_nanos()
    }
}

} // verus!
