//! A span of time, measured in whole seconds plus a sub-second count of
//! nanoseconds, with the same range and the same constructors as the
//! standard library's duration type. Timeouts and retry delays are kept in
//! this type so that their arithmetic can be stated and checked.
use vstd::prelude::*;

verus! {

/// Nanoseconds in one second.
pub const NANOS_PER_SEC: u64 = 1_000_000_000;

/// Nanoseconds in one millisecond.
pub const NANOS_PER_MILLI: u64 = 1_000_000;

/// A non-negative span of time: `secs` whole seconds plus `nanos`
/// nanoseconds, where `nanos` is always below one second.
#[derive(Debug, Clone, Copy, PartialEq, Eq, Hash, PartialOrd, Ord)]
pub struct Duration {
    secs: u64,
    nanos: u32,
}

impl View for Duration {
    type V = nat;

    /// The total length of the span in nanoseconds.
    closed spec fn view(&self) -> nat {
        (self.secs * NANOS_PER_SEC + self.nanos) as nat
    }
}

/// The largest number of nanoseconds a [`Duration`] can hold.
pub open spec fn max_duration_nanos() -> nat {
    (u64::MAX * NANOS_PER_SEC + (NANOS_PER_SEC - 1)) as nat
}

impl Duration {
    #[verifier::type_invariant]
    spec fn well_formed(self) -> bool {
        self.nanos < NANOS_PER_SEC
    }

    /// The whole-second part of the span.
    pub closed spec fn spec_as_secs(&self) -> u64 {
        self.secs
    }

    /// The sub-second part of the span, in nanoseconds.
    pub closed spec fn spec_subsec_nanos(&self) -> u32 {
        self.nanos
    }

    /// Builds a span from a total count of nanoseconds.
    fn from_total_nanos(total: u128) -> (d: Duration)
        requires
            total <= max_duration_nanos(),
        ensures
            d@ == total,
    {
        let secs = total / (NANOS_PER_SEC as u128);
        let nanos = total % (NANOS_PER_SEC as u128);
        assert(secs * NANOS_PER_SEC + nanos == total) by (nonlinear_arith)
            requires
                secs == total / (NANOS_PER_SEC as u128),
                nanos == total % (NANOS_PER_SEC as u128),
        ;
        assert(secs <= u64::MAX) by (nonlinear_arith)
            requires
                secs == total / (NANOS_PER_SEC as u128),
                total <= u64::MAX * NANOS_PER_SEC + (NANOS_PER_SEC - 1),
        ;
        Duration { secs: secs as u64, nanos: nanos as u32 }
    }

    /// A span of `secs` whole seconds.
    pub fn from_secs(secs: u64) -> (d: Duration)
        ensures
            d@ == secs * NANOS_PER_SEC,
            d.spec_as_secs() == secs,
            d.spec_subsec_nanos() == 0,
    {
        Duration { secs, nanos: 0 }
    }

    /// A span of `millis` milliseconds.
    pub fn from_millis(millis: u64) -> (d: Duration)
        ensures
            d@ == millis * NANOS_PER_MILLI,
    {
        assert(millis * NANOS_PER_MILLI <= u64::MAX * NANOS_PER_SEC) by (nonlinear_arith)
            requires
                millis <= u64::MAX,
        ;
        let total = (millis as u128) * (NANOS_PER_MILLI as u128);
        Self::from_total_nanos(total)
    }

    /// A span of `nanos` nanoseconds.
    pub fn from_nanos(nanos: u64) -> (d: Duration)
        ensures
            d@ == nanos,
    {
        Self::from_total_nanos(nanos as u128)
    }

    /// The whole-second part of the span.
    #[verifier::when_used_as_spec(spec_as_secs)]
    pub fn as_secs(&self) -> (s: u64)
        ensures
            s == self.spec_as_secs(),
    {
        self.secs
    }

    /// The sub-second part of the span, in nanoseconds (always below one
    /// second).
    #[verifier::when_used_as_spec(spec_subsec_nanos)]
    pub fn subsec_nanos(&self) -> (n: u32)
        ensures
            n == self.spec_subsec_nanos(),
            n < NANOS_PER_SEC,
    {
        proof {
            use_type_invariant(self);
        }
        self.nanos
    }

    /// The total length of the span in nanoseconds.
    pub fn as_nanos(&self) -> (n: u128)
        ensures
            n == self@,
            n <= max_duration_nanos(),
    {
        proof {
            use_type_invariant(self);
            assert(self.secs * NANOS_PER_SEC <= u64::MAX * NANOS_PER_SEC) by (nonlinear_arith)
                requires
                    self.secs <= u64::MAX,
            ;
        }
        (self.secs as u128) * (NANOS_PER_SEC as u128) + (self.nanos as u128)
    }

    /// The total length of the span in whole milliseconds (rounded down).
    pub fn as_millis(&self) -> (n: u128)
        ensures
            n == self@ / (NANOS_PER_MILLI as nat),
    {
        self.as_nanos() / (NANOS_PER_MILLI as u128)
    }

    /// `true` when the span has length zero.
    pub fn is_zero(&self) -> (b: bool)
        ensures
            b == (self@ == 0),
    {
        self.secs == 0 && self.nanos == 0
    }
}

} // verus!
