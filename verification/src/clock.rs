//! Trusted boundary to the monotonic clock.

use vstd::prelude::*;

verus! {

#[verifier::external_type_specification]
#[verifier::external_body]
/// An opaque reading of the monotonic clock.
pub struct ExInstant(std::time::Instant);

/// Relies on `std::time::Instant::now`: the current reading of the monotonic
/// clock. The result depends on when it runs, so nothing is stated about it.
#[verifier::external_body]
pub(crate) fn now_instant() -> (r: std::time::Instant) {
    std::time::Instant::now()
}

/// Relies on `Instant::elapsed` and `Duration::as_nanos`: the whole
/// nanoseconds of the span from `start` to now. `elapsed` never goes
/// backwards, and a `Duration` is non-negative, so the count is too; beyond
/// that the result depends on the clock, so nothing more is stated.
#[verifier::external_body]
pub(crate) fn elapsed_nanos(start: &std::time::Instant) -> (r: u128) {
    start.elapsed().as_nanos()
}

} // verus!
