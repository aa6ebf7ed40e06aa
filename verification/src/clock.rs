//! The wall clock.

use vstd::prelude::*;
use crate::records::Timestamp;

verus! {

/// Reads the wall clock through `chrono::Utc::now` and splits the instant
/// with `DateTime::timestamp` and `DateTime::timestamp_subsec_nanos`.
/// Nothing is claimed of the result: it is whatever the clock says. On a
/// machine whose clock stands before 1970 the call panics.
#[verifier::external_body]
pub(crate) fn timestamp_now() -> (now: Timestamp) {
    let now = chrono::Utc::now();
    Timestamp { secs: now.timestamp(), nanos: now.timestamp_subsec_nanos() }
}

} // verus!
