//! Wall-clock readings.  What the clock returns depends on the moment
//! of the call, so nothing can be promised of the values; every
//! function that works with a reading takes it as an argument and is
//! verified for all of them.

use vstd::prelude::*;

verus! {

/// Relies on `chrono::Utc::now` read out through
/// `DateTime::timestamp`: the current wall-clock time in unix
/// seconds.  No two readings are related in any way this crate could
/// state.
#[verifier::external_body]
pub fn unix_now() -> i64 {
    chrono::Utc::now().timestamp()
}

/// Relies on `chrono::Utc::now` rendered through `DateTime::format`
/// with a fixed year-to-second pattern: a compact
/// `YYYYMMDD_HHMMSS` reading of the wall clock, used to stamp
/// artifact names.
#[verifier::external_body]
pub fn compact_timestamp() -> String {
    chrono::Utc::now().format("%Y%m%d_%H%M%S").to_string()
}

} // verus!
