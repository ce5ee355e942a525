//! The wall clock.

use vstd::prelude::*;

verus! {

/// The present moment in microseconds since the Unix epoch, read by
/// `chrono::Utc::now` and converted by `DateTime::timestamp_micros`.
///
/// Nothing is claimed of the number: it is whatever the system clock says,
/// and two readings need not grow. As `Utc::now` does, this panics where the
/// system clock stands before 1970.
#[verifier::external_body]
pub(crate) fn utc_now_micros() -> i64 {
    chrono::Utc::now().timestamp_micros()
}

} // verus!
