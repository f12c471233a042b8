//! Wall-clock time.

use vstd::prelude::*;

verus! {

/// A moment in UTC: seconds since the Unix epoch, and the nanoseconds that
/// have passed within that second.
#[derive(Debug, Clone, Copy, PartialEq, Eq)]
pub struct Timestamp {
    pub seconds: i64,
    pub nanos: u32,
}

/// Calls `chrono::Utc::now`. Trusted: nothing is claimed of the result.
#[verifier::external_body]
pub(crate) fn utc_now() -> (now: Timestamp) {
    let now = chrono::Utc::now();
    Timestamp { seconds: now.timestamp(), nanos: now.timestamp_subsec_nanos() }
}

} // verus!
