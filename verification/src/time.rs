//! Spans of time, held as whole seconds and nanoseconds.
use vstd::prelude::*;

verus! {

/// Nanoseconds in one second.
pub const NANOS_PER_SEC: u32 = 1_000_000_000;

/// Nanoseconds in one millisecond.
pub const NANOS_PER_MILLI: u32 = 1_000_000;

/// A span of time: whole seconds and the nanoseconds beyond them.
///
/// This is the value that the request builders read of a timeout or a back-off:
/// they send it to the gateway as whole milliseconds.
#[derive(Clone, Copy, Debug, PartialEq, Eq, Structural)]
pub struct Duration {
    secs: u64,
    nanos: u32,
}

impl Duration {
    /// The whole seconds of the span.
    pub closed spec fn spec_secs(self) -> u64 {
        self.secs
    }

    /// The nanoseconds beyond the whole seconds.
    pub closed spec fn spec_subsec_nanos(self) -> u32 {
        self.nanos
    }

    /// The length of the span in nanoseconds.
    pub open spec fn total_nanos(self) -> nat {
        (self.spec_secs() as nat) * (NANOS_PER_SEC as nat) + (self.spec_subsec_nanos() as nat)
    }

    /// The length of the span in whole milliseconds.
    pub open spec fn total_millis(self) -> nat {
        self.total_nanos() / (NANOS_PER_MILLI as nat)
    }

    #[verifier::type_invariant]
    closed spec fn inv(self) -> bool {
        self.nanos < NANOS_PER_SEC
    }

    /// The empty span.
    pub fn zero() -> (d: Duration)
        ensures
            d.spec_secs() == 0,
            d.spec_subsec_nanos() == 0,
            d.total_nanos() == 0,
    {
        Duration { secs: 0, nanos: 0 }
    }

    /// A span of `secs` whole seconds.
    pub fn from_secs(secs: u64) -> (d: Duration)
        ensures
            d.spec_secs() == secs,
            d.spec_subsec_nanos() == 0,
            d.total_nanos() == secs * NANOS_PER_SEC,
            d.total_millis() == secs * 1000,
    {
        let d = Duration { secs, nanos: 0 };
        assert(d.total_nanos() == (secs * 1000) * (NANOS_PER_MILLI as nat)) by (nonlinear_arith)
            requires d.total_nanos() == (secs as nat) * (NANOS_PER_SEC as nat) + 0;
        d
    }

    /// A span of `millis` milliseconds.
    pub fn from_millis(millis: u64) -> (d: Duration)
        ensures
            d.spec_secs() == millis / 1000,
            d.spec_subsec_nanos() == (millis % 1000) * NANOS_PER_MILLI,
            d.total_nanos() == millis * NANOS_PER_MILLI,
            d.total_millis() == millis,
    {
        let secs = millis / 1000;
        let rest = millis % 1000;
        let nanos = (rest as u32) * NANOS_PER_MILLI;
        let d = Duration { secs, nanos };
        assert(d.total_nanos() == (millis as nat) * (NANOS_PER_MILLI as nat)) by (nonlinear_arith)
            requires
                d.total_nanos() == (secs as nat) * 1_000_000_000 + (nanos as nat),
                millis == secs * 1000 + rest,
                nanos == rest * 1_000_000,
        ;
        assert(((millis as nat) * (NANOS_PER_MILLI as nat)) / (NANOS_PER_MILLI as nat) == millis)
            by (nonlinear_arith);
        d
    }

    /// A span of `secs` seconds and `nanos` nanoseconds; nanoseconds of a second or
    /// more carry into the seconds.
    pub fn new(secs: u64, nanos: u32) -> (d: Duration)
        requires
            secs + nanos / NANOS_PER_SEC <= u64::MAX,
        ensures
            d.total_nanos() == secs * NANOS_PER_SEC + nanos,
            d.spec_secs() == secs + nanos / NANOS_PER_SEC,
            d.spec_subsec_nanos() == nanos % NANOS_PER_SEC,
    {
        let carry = (nanos / NANOS_PER_SEC) as u64;
        let d = Duration { secs: secs + carry, nanos: nanos % NANOS_PER_SEC };
        assert(d.total_nanos() == (secs as nat) * 1_000_000_000 + (nanos as nat)) by (nonlinear_arith)
            requires
                d.total_nanos() == ((secs + carry) as nat) * 1_000_000_000 + ((nanos % 1_000_000_000) as nat),
                carry == nanos / 1_000_000_000,
        ;
        d
    }

    /// The whole seconds of the span.
    pub fn as_secs(&self) -> (s: u64)
        ensures
            s == self.spec_secs(),
    {
        self.secs
    }

    /// The nanoseconds beyond the whole seconds.
    pub fn subsec_nanos(&self) -> (n: u32)
        ensures
            n == self.spec_subsec_nanos(),
            n < NANOS_PER_SEC,
    {
        proof {
            use_type_invariant(self);
        }
        self.nanos
    }

    /// The length of the span in whole milliseconds.
    pub fn as_millis(&self) -> (ms: u128)
        ensures
            ms == self.total_millis(),
    {
        proof {
            use_type_invariant(self);
        }
        let secs = self.secs as u128;
        let sub = (self.nanos / NANOS_PER_MILLI) as u128;
        assert(secs * 1000 <= u64::MAX as u128 * 1000) by (nonlinear_arith)
            requires secs <= u64::MAX;
        let ms = secs * 1000 + sub;
        assert(ms == self.total_millis()) by (nonlinear_arith)
            requires
                ms == secs * 1000 + sub,
                sub == self.nanos / 1_000_000,
                self.nanos < 1_000_000_000,
                self.total_nanos() == (secs as nat) * 1_000_000_000 + (self.nanos as nat),
                self.total_millis() == self.total_nanos() / 1_000_000,
        ;
        ms
    }
}

} // verus!
