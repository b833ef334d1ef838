//! Monotonic time, as seen by the library.
//!
//! Everything here reads the machine's clock, so nothing is promised of the
//! values beyond what holds of every outcome.

use vstd::prelude::*;

verus! {

#[verifier::external_type_specification]
#[verifier::external_body]
pub struct ExInstant(std::time::Instant);

/// Calls `std::time::Instant::now`. The clock is read, so the result is not
/// described.
#[verifier::external_body]
pub(crate) fn now() -> std::time::Instant {
    std::time::Instant::now()
}

/// Calls `std::time::Instant::elapsed` on `since` and gives the duration in
/// nanoseconds (`Duration::as_nanos`, exact). The value depends on the clock,
/// so it is not described.
#[verifier::external_body]
pub(crate) fn elapsed_nanos(since: &std::time::Instant) -> u128 {
    since.elapsed().as_nanos()
}

} // verus!
