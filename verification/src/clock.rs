//! The monotonic clock the dispatch loop samples around an update call.
//!
//! Both items are trusted: what the clock returns depends on the machine and
//! the moment, so nothing is assumed of the values; the dispatch loop states
//! what holds of its reports whatever milliseconds came back.

use vstd::prelude::*;

verus! {

#[verifier::external_type_specification]
#[verifier::external_body]
pub struct ExInstant(std::time::Instant);

/// Relies on `std::time::Instant::now`: a sample of the monotonic clock,
/// taken just before an update call. Nothing is assumed of the value.
#[verifier::external_body]
pub(crate) fn monotonic_now() -> std::time::Instant {
    std::time::Instant::now()
}

/// Relies on `std::time::Instant::elapsed` and `Duration::as_millis`: the
/// whole milliseconds since `earlier`. The value depends on the clock, so
/// nothing is assumed of it.
#[verifier::external_body]
pub(crate) fn elapsed_millis(earlier: &std::time::Instant) -> u64 {
    earlier.elapsed().as_millis() as u64
}

} // verus!
