//! The wall clock, read as microseconds since the Unix epoch (the precision
//! the store keeps).

use vstd::prelude::*;

verus! {

/// Calls `chrono::Utc::now()` and reads it with `timestamp_micros`. The value
/// depends on the time of the call, so nothing is stated of it.
#[verifier::external_body]
pub(crate) fn now_micros() -> (r: i64) {
    chrono::Utc::now().timestamp_micros()
}

} // verus!
