//! The wall clock, read through the outside date-time library.

use vstd::prelude::*;

verus! {

/// Relies on `std::time::SystemTime::now`, `chrono::DateTime::from_timestamp`
/// and `to_rfc3339`: the current UTC time as an RFC 3339 string. A
/// clock before the epoch, or out of the calendar's range, yields the
/// epoch instead of a panic. Nothing is assumed of the value; callers
/// pass it on as an opaque timestamp.
#[verifier::external_body]
pub fn now_rfc3339() -> String {
    let secs = match std::time::SystemTime::now().duration_since(std::time::UNIX_EPOCH) {
        Ok(d) => i64::try_from(d.as_secs()).unwrap_or(i64::MAX),
        Err(e) => i64::try_from(e.duration().as_secs()).map_or(i64::MIN, |s| s.saturating_neg()),
    };
    chrono::DateTime::from_timestamp(secs, 0)
        .unwrap_or_default()
        .to_rfc3339()
}

} // verus!
