//! Readings of the wall clock and of the monotonic clock. What a clock shows
//! is not for a proof to say: the readings are taken here and handed, as
//! numbers, to functions that hold for every reading.

use vstd::prelude::*;
use tokio::time::Instant;

verus! {

/// `tokio::time::Instant`, held as it is.
#[verifier::external_type_specification]
#[verifier::external_body]
pub struct ExInstant(Instant);

/// `chrono::Utc::now`, then `DateTime::timestamp_millis`: the wall clock in
/// milliseconds since the Unix epoch. Nothing is promised of the reading.
/// On a system whose clock stands before 1970 the call panics.
#[verifier::external_body]
pub(crate) fn wall_clock_millis() -> (now: i64) {
    chrono::Utc::now().timestamp_millis()
}

/// `tokio::time::Instant::now`: the moment from which a component counts
/// its monotonic time.
#[verifier::external_body]
pub(crate) fn clock_origin() -> (origin: Instant) {
    Instant::now()
}

/// `tokio::time::Instant::elapsed`, in whole nanoseconds: the monotonic time
/// since `origin`. Nothing is promised of the reading.
#[verifier::external_body]
pub(crate) fn nanos_since(origin: &Instant) -> (now: u64) {
    origin.elapsed().as_nanos() as u64
}

} // verus!
