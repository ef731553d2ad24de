//! Trusted access to the monotonic clock.
//!
//! The timer never looks inside an [`std::time::Instant`]: it only keeps the
//! most recent sample and asks how many nanoseconds lie between two samples.
//! Which instant the clock hands back, and hence how large that gap is, is
//! outside anyone's control, so the two functions below promise nothing about
//! their results; everything the timer guarantees holds for every elapsed
//! time the clock may report.

use vstd::prelude::*;

verus! {

/// `std::time::Instant` as an opaque value: a sample of the monotonic clock,
/// used only to measure the gap to a later sample.
#[verifier::external_type_specification]
#[verifier::external_body]
pub struct ExInstant(std::time::Instant);

/// Relies on `std::time::Instant::now`: a fresh sample of the monotonic
/// clock. Nothing can be promised about which instant comes back.
#[verifier::external_body]
pub(crate) fn monotonic_now() -> std::time::Instant {
    std::time::Instant::now()
}

/// Relies on `std::time::Instant::saturating_duration_since`: the time from
/// `earlier` to `later`, zero if `earlier` is in fact the later sample, and
/// never a panic. The result is converted to whole nanoseconds. Its value
/// depends on the clock samples alone, so nothing is promised of it.
#[verifier::external_body]
pub(crate) fn nanos_between(earlier: &std::time::Instant, later: &std::time::Instant) -> u128 {
    later.saturating_duration_since(*earlier).as_nanos()
}

} // verus!
