//! The agent's fixed periods and capacities.

use vstd::prelude::*;

verus! {

/// Packets that may wait between ingest and the writer; ingest waits for
/// room beyond that.
pub const CHANNEL_CAPACITY: usize = 10_000;

/// Milliseconds that ingest sleeps once the ring is drained.
pub const IDLE_SLEEP_MILLIS: u64 = 1;

/// Seconds between two evictions of stale flows.
pub const EVICTION_PERIOD_SECONDS: u64 = 10;

/// Seconds between two prunings of rows past retention.
pub const RETENTION_PERIOD_SECONDS: u64 = 60;

/// Seconds between two frames of the live stream.
pub const STREAM_PERIOD_SECONDS: u64 = 1;

/// Seconds for which an answer of reverse DNS, found or not, stays fresh.
pub const DNS_TTL_SECONDS: u64 = 300;

/// Seconds that one lookup of reverse DNS may take.
pub const DNS_TIMEOUT_SECONDS: u64 = 2;

/// Nanoseconds in a second.
pub const NANOS_PER_SECOND: u64 = 1_000_000_000;

/// A span is longer than `seconds`.
pub open spec fn longer_than(span_nanos: u64, seconds: u64) -> bool {
    span_nanos > seconds * NANOS_PER_SECOND
}

/// A number of seconds in nanoseconds, and the longest span that can be
/// told where that is beyond it. No span is longer than the result unless
/// it is longer than `seconds`.
pub fn seconds_to_nanos(seconds: u64) -> (nanos: u64)
    ensures
        nanos == if seconds * NANOS_PER_SECOND <= u64::MAX {
            seconds * NANOS_PER_SECOND
        } else {
            u64::MAX as int
        },
        forall|span: u64| span > nanos <==> #[trigger] longer_than(span, seconds),
{
    if seconds <= u64::MAX / NANOS_PER_SECOND {
        seconds * NANOS_PER_SECOND
    } else {
        u64::MAX
    }
}

} // verus!
