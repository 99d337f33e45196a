//! A measured span of time, held as whole seconds and a fraction in nanoseconds.

use vstd::prelude::*;

verus! {

/// Nanoseconds in one second.
pub const NANOS_PER_SEC: u32 = 1_000_000_000;

/// Nanoseconds in one millisecond.
pub const NANOS_PER_MILLI: u32 = 1_000_000;

/// Nanoseconds in one microsecond.
pub const NANOS_PER_MICRO: u32 = 1_000;

/// A span of time: `secs` whole seconds and `nanos` further nanoseconds.
#[derive(Clone, Copy, Debug, PartialEq, Eq)]
pub struct Elapsed {
    pub secs: u64,
    pub nanos: u32,
}

impl Elapsed {
    /// The fraction is less than one second.
    pub open spec fn wf(self) -> bool {
        self.nanos < NANOS_PER_SEC
    }

    /// The whole span in nanoseconds.
    pub open spec fn total_nanos(self) -> nat {
        (self.secs * NANOS_PER_SEC + self.nanos) as nat
    }

    /// The span in whole milliseconds, rounded down.
    pub open spec fn total_millis(self) -> nat {
        self.total_nanos() / (NANOS_PER_MILLI as nat)
    }

    /// The span in whole microseconds, rounded down.
    pub open spec fn total_micros(self) -> nat {
        self.total_nanos() / (NANOS_PER_MICRO as nat)
    }

    /// Builds a span from its two parts; `None` when `nanos` is a second or more.
    pub fn new(secs: u64, nanos: u32) -> (r: Option<Elapsed>)
        ensures
            nanos < NANOS_PER_SEC ==> r == Some(Elapsed { secs, nanos }),
            nanos >= NANOS_PER_SEC ==> r is None,
    {
        if nanos < NANOS_PER_SEC {
            Some(Elapsed { secs, nanos })
        } else {
            None
        }
    }

    /// Whether the fraction is less than one second.
    pub fn is_wf(&self) -> (b: bool)
        ensures
            b == self.wf(),
    {
        self.nanos < NANOS_PER_SEC
    }

    /// The whole seconds of the span.
    pub fn as_secs(&self) -> (n: u64)
        ensures
            n == self.secs,
            self.wf() ==> n == self.total_nanos() / (NANOS_PER_SEC as nat),
    {
        self.secs
    }

    /// The span in nanoseconds.
    pub fn as_nanos(&self) -> (n: u128)
        ensures
            n == self.total_nanos(),
    {
        let secs: u128 = self.secs as u128;
        let per_sec: u128 = NANOS_PER_SEC as u128;
        assert(secs * per_sec <= 0xffff_ffff_ffff_ffff * 1_000_000_000) by (nonlinear_arith)
            requires
                secs <= 0xffff_ffff_ffff_ffff,
                per_sec == 1_000_000_000,
        ;
        secs * per_sec + self.nanos as u128
    }

    /// The span in whole milliseconds.
    pub fn as_millis(&self) -> (n: u128)
        ensures
            n == self.total_millis(),
    {
        self.as_nanos() / NANOS_PER_MILLI as u128
    }

    /// The span in whole microseconds.
    pub fn as_micros(&self) -> (n: u128)
        ensures
            n == self.total_micros(),
    {
        self.as_nanos() / NANOS_PER_MICRO as u128
    }
}

} // verus!
