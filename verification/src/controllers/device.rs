//! How devices are shown.

use vstd::prelude::*;
use crate::models::entities::Device;
use crate::views::device::device_status_shown;
use crate::views::device::DeviceResponse;
use crate::views::device::DeviceStatus;

verus! {

/// A device as a response shows it, with `shown_key` in the place of its
/// API key.
pub fn device_response(device: Device, shown_key: String) -> (response: DeviceResponse)
    ensures
        response == (DeviceResponse {
            id: device.id,
            name: device.name,
            reservoir_id: device.reservoir_id,
            status: device_status_shown(device.status),
            last_seen: device.last_seen,
            api_key: shown_key,
        }),
{
    DeviceResponse {
        id: device.id,
        name: device.name,
        reservoir_id: device.reservoir_id,
        status: DeviceStatus::from(device.status),
        last_seen: device.last_seen,
        api_key: shown_key,
    }
}

/// A device that was just created as its response shows it: offline, never
/// seen, and with its API key in full, this once.
pub fn created_response(device: Device) -> (response: DeviceResponse)
    ensures
        response == (DeviceResponse {
            id: device.id,
            name: device.name,
            reservoir_id: device.reservoir_id,
            status: DeviceStatus::Offline,
            last_seen: None,
            api_key: device.api_key,
        }),
{
    DeviceResponse {
        id: device.id,
        name: device.name,
        reservoir_id: device.reservoir_id,
        status: DeviceStatus::Offline,
        last_seen: None,
        api_key: device.api_key,
    }
}

} // verus!
