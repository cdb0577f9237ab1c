//! Points in time.

use vstd::prelude::*;

verus! {

/// A point in time: seconds since the start of 1970 in UTC, and the nanoseconds
/// that have passed since that second.
#[derive(Debug, Clone, Copy, PartialEq, Eq, Structural)]
pub struct Timestamp {
    pub seconds: i64,
    pub nanos: u32,
}

/// `Utc::now` of `chrono`: the current time, from a system clock that stands after
/// the start of 1970. Nothing is claimed of when that is, only that the nanoseconds
/// stay below a second.
#[verifier::external_body]
pub(crate) fn utc_now() -> (r: Timestamp)
    ensures
        r.nanos < 1_000_000_000,
{
    let now = chrono::Utc::now();
    Timestamp { seconds: now.timestamp(), nanos: now.timestamp_subsec_nanos() }
}

} // verus!
