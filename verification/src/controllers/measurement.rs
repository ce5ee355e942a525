//! How measurements are shown.

use vstd::prelude::*;
use crate::models::entities::Measurement;
use crate::views::measurement::MeasurementResponse;

verus! {

/// HTTP status 201: the measurement was stored.
pub const CREATED: u16 = 201;

/// The reservoir whose rules are to be evaluated after a submission: that of
/// the device, and none where the measurement was not stored.
pub fn evaluation_due<E>(stored: &Result<(), E>, reservoir_id: Option<i32>) -> (due: Option<i32>)
    ensures
        due == if stored is Ok {
            reservoir_id
        } else {
            None::<i32>
        },
{
    match stored {
        Ok(_) => reservoir_id,
        Err(_) => None,
    }
}

/// What a submission is answered with. A measurement that could not be
/// stored is answered with the error of storing it. One that was stored is
/// answered with 201, whatever came of evaluating the rules: an error there
/// is for the log, and never for the device.
pub fn submission_status<E>(stored: Result<(), E>, evaluated: Option<Result<(), E>>) -> (r: Result<
    u16,
    E,
>)
    ensures
        match stored {
            Err(e) => r == Err::<u16, E>(e),
            Ok(_) => r == Ok::<u16, E>(CREATED),
        },
{
    match stored {
        Err(e) => Err(e),
        Ok(_) => Ok(CREATED),
    }
}

/// A reading as a response shows it.
pub fn measurement_response(m: Measurement) -> (response: MeasurementResponse)
    ensures
        response == (MeasurementResponse { time: m.time, value: m.value, device_id: m.device_id }),
{
    MeasurementResponse { time: m.time, value: m.value, device_id: m.device_id }
}

/// The readings as responses show them, each in its place.
pub fn measurement_responses(history: Vec<Measurement>) -> (shown: Vec<MeasurementResponse>)
    ensures
        shown@.len() == history@.len(),
        forall|i: int|
            0 <= i < history@.len() ==> #[trigger] shown@[i] == (MeasurementResponse {
                time: history@[i].time,
                value: history@[i].value,
                device_id: history@[i].device_id,
            }),
{
    let mut shown: Vec<MeasurementResponse> = Vec::new();
    let mut i: usize = 0;
    while i < history.len()
        invariant
            i <= history@.len(),
            shown@.len() == i,
            forall|k: int|
                0 <= k < i ==> #[trigger] shown@[k] == (MeasurementResponse {
                    time: history@[k].time,
                    value: history@[k].value,
                    device_id: history@[k].device_id,
                }),
        decreases history@.len() - i,
    {
        shown.push(measurement_response(history[i]));
        i = i + 1;
    }
    shown
}

} // verus!
