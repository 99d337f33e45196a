//! The monotonic clock, and the reading of a time span from it.

use crate::elapsed::Elapsed;
use std::time::Duration;
use std::time::Instant;
use vstd::prelude::*;

verus! {

/// Trusted: `std::time::Instant`, a reading of the monotonic clock. Nothing
/// inside it is visible to the proofs.
#[verifier::external_type_specification]
#[verifier::external_body]
pub struct ExInstant(std::time::Instant);

/// Trusted: `Instant::now` returns; nothing is claimed of the reading.
pub assume_specification[ Instant::now ]() -> Instant;

/// Trusted: `Instant::elapsed` returns; nothing is claimed of the span.
pub assume_specification[ Instant::elapsed ](start: &Instant) -> Duration;

/// Trusted: `Duration::as_secs` returns; nothing is claimed of the count.
pub assume_specification[ Duration::as_secs ](span: &Duration) -> u64;

/// Trusted: `Duration::subsec_nanos` returns the fraction of a second in
/// nanoseconds, which is below one thousand million.
pub assume_specification[ Duration::subsec_nanos ](span: &Duration) -> (nanos: u32)
    ensures
        nanos < 1_000_000_000,
;

/// The time that has passed on the clock since `start`. Which span comes
/// back depends on the clock; it is well formed whatever the clock says.
pub fn elapsed_since(start: &Instant) -> (elapsed: Elapsed)
    ensures
        elapsed.wf(),
{
    let span = start.elapsed();
    Elapsed { secs: span.as_secs(), nanos: span.subsec_nanos() }
}

} // verus!
