//! What is decided about measurements around their storage.

use vstd::prelude::*;
use crate::double::Double;
use crate::models::entities::Measurement;
use crate::utils::clock::utc_now_micros;
use crate::views::measurement::MeasurementHistoryQuery;

verus! {

/// The operations on measurements.
pub struct Measurements;

/// The readings that a query is given where it names no limit.
pub const DEFAULT_MEASUREMENT_LIMIT: u64 = 100;

impl MeasurementHistoryQuery {
    /// Whether a reading of the instant `time` lies in the span that the
    /// query asks for; a bound that is not given does not bind.
    pub open spec fn admits_spec(self, time: i64) -> bool {
        &&& self.from matches Some(from) ==> from <= time
        &&& self.to matches Some(to) ==> time <= to
    }

    /// Whether a reading of the instant `time` lies in the span that the
    /// query asks for.
    pub fn admits(&self, time: i64) -> (admitted: bool)
        ensures
            admitted == self.admits_spec(time),
    {
        let after: bool = match self.from {
            Some(from) => from <= time,
            None => true,
        };
        let before: bool = match self.to {
            Some(to) => time <= to,
            None => true,
        };
        after && before
    }

    /// How many readings the query is given at most.
    pub fn limit_or_default(&self) -> (limit: u64)
        ensures
            limit == match self.limit {
                Some(l) => l,
                None => DEFAULT_MEASUREMENT_LIMIT,
            },
    {
        match self.limit {
            Some(l) => l,
            None => DEFAULT_MEASUREMENT_LIMIT,
        }
    }
}

impl Measurements {
    /// The reading to store: of the instant `timestamp`, or of `now` where
    /// the device gave none.
    pub fn stamped(device_id: i32, value: Double, timestamp: Option<i64>, now: i64) -> (m:
        Measurement)
        ensures
            m == (Measurement {
                time: match timestamp {
                    Some(t) => t,
                    None => now,
                },
                device_id,
                value,
            }),
    {
        Measurement {
            time: match timestamp {
                Some(t) => t,
                None => now,
            },
            device_id,
            value,
        }
    }

    /// The reading to store: of the instant `timestamp`, or of the moment
    /// of the call where the device gave none.
    pub fn add(device_id: i32, value: Double, timestamp: Option<i64>) -> (m: Measurement)
        ensures
            m.device_id == device_id,
            m.value == value,
            timestamp matches Some(t) ==> m.time == t,
    {
        match timestamp {
            Some(t) => Measurements::stamped(device_id, value, Some(t), t),
            None => Measurements::stamped(device_id, value, None, utc_now_micros()),
        }
    }
}

} // verus!
