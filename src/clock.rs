//! The wall clock.

use vstd::prelude::*;

verus! {

/// Relies on `chrono::Utc::now` and `DateTime::timestamp_millis`: the
/// current time in milliseconds since the Unix epoch. Nothing is promised of
/// its value. `Utc::now` panics if the system clock is set before 1970, which
/// no precondition can rule out.
#[verifier::external_body]
pub fn now_millis() -> (r: u64) {
    chrono::Utc::now().timestamp_millis() as u64
}

} // verus!
