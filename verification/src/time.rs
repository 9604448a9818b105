//! Points in time and spans of time.

use std::time::Duration;

use vstd::prelude::*;

verus! {

/// A point in time as the server counts it: milliseconds since the start of 1970.
#[derive(Clone, Copy, PartialEq, Eq, Debug, Structural)]
pub struct Timestamp {
    pub millis: u64,
}

/// How long a span is, in nanoseconds.
pub uninterp spec fn duration_nanos(duration: Duration) -> nat;

/// A span of `millis` milliseconds, through `std::time::Duration::from_millis`. Claimed: it is
/// that long.
#[verifier::external_body]
pub(crate) fn duration_from_millis(millis: u64) -> (duration: Duration)
    ensures
        duration_nanos(duration) == millis as nat * 1_000_000,
{
    Duration::from_millis(millis)
}

} // verus!
