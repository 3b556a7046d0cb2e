//! The clock.

use vstd::prelude::*;

use crate::types::Timestamp;

verus! {

/// Reads the clock with `chrono::Utc::now`. What it shows is left to the machine; it is never
/// before the Unix epoch (a machine whose clock is set before it panics there), and its
/// nanoseconds make up less than a second.
#[verifier::external_body]
pub(crate) fn utc_now() -> (r: Timestamp)
    ensures
        r.secs >= 0,
        r.nanos < 1_000_000_000,
{
    let now = chrono::Utc::now();
    Timestamp { secs: now.timestamp(), nanos: now.timestamp_subsec_nanos() }
}

} // verus!
