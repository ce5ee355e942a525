//! What the measurement operations take from and give to their callers.
//! Every time is in microseconds since the Unix epoch.

use vstd::prelude::*;
use crate::double::Double;

verus! {

/// A reading that a device submits. Without a `timestamp` it is taken to
/// be of the moment at which it arrives.
#[derive(Clone, Copy, Debug, PartialEq, Eq)]
pub struct SubmitMeasurementRequest {
    pub value: Double,
    pub timestamp: Option<i64>,
}

/// Which readings of a device are asked for: those from `from` to `to`,
/// both included, and at most `limit` of them (100 where none is given).
#[derive(Clone, Copy, Debug, PartialEq, Eq)]
pub struct MeasurementHistoryQuery {
    pub from: Option<i64>,
    pub to: Option<i64>,
    pub limit: Option<u64>,
}

/// A reading as a response shows it.
#[derive(Clone, Copy, Debug, PartialEq, Eq)]
pub struct MeasurementResponse {
    pub time: i64,
    pub value: Double,
    pub device_id: i32,
}

} // verus!
