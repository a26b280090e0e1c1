//! The wall clock.

use vstd::prelude::*;

verus! {

/// Reads the clock with `std::time::SystemTime::now`, turns the reading
/// into a `chrono::DateTime<Utc>` with chrono's `From<SystemTime>`, and
/// gives the moment as `DateTime::timestamp` does: in whole seconds since
/// the Unix epoch, negative for a moment before it. Nothing is claimed of
/// the value: two readings may differ in any way.
#[verifier::external_body]
pub(crate) fn unix_time_now() -> (seconds: i64) {
    chrono::DateTime::<chrono::Utc>::from(std::time::SystemTime::now()).timestamp()
}

} // verus!
