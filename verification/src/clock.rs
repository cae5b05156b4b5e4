//! Points in time and spans of time, from `std::time`.

use vstd::prelude::*;
use std::time::{Duration, Instant};

verus! {

/// `std::time::Instant`, a reading of the monotonic clock; opaque here.
#[verifier::external_type_specification]
#[verifier::external_body]
pub struct ExInstant(Instant);

/// Calls `std::time::Instant::now`. Nothing is claimed of the reading: it
/// rests on the clock.
#[verifier::external_body]
pub(crate) fn instant_now() -> Instant {
    Instant::now()
}

/// What `std::time::Duration::from_secs` returns for a number of seconds.
pub uninterp spec fn spec_duration_from_secs(secs: u64) -> Duration;

/// Calls `std::time::Duration::from_secs`: the span of `secs` whole seconds,
/// named by `spec_duration_from_secs`.
#[verifier::external_body]
pub(crate) fn duration_from_secs(secs: u64) -> (d: Duration)
    ensures
        d == spec_duration_from_secs(secs),
{
    Duration::from_secs(secs)
}

} // verus!
