//! What the device operations take from and give to their callers.

use vstd::prelude::*;
use crate::models::entities::DeviceStatus as DbDeviceStatus;

verus! {

/// What a device last reported of itself, as requests and responses name it.
#[derive(Clone, Copy, Debug, PartialEq, Eq, Structural)]
pub enum DeviceStatus {
    Online,
    Offline,
    Maintenance,
}

/// The device status as requests and responses name it.
pub open spec fn device_status_shown(val: DbDeviceStatus) -> DeviceStatus {
    match val {
        DbDeviceStatus::Online => DeviceStatus::Online,
        DbDeviceStatus::Offline => DeviceStatus::Offline,
        DbDeviceStatus::Maintenance => DeviceStatus::Maintenance,
    }
}

impl From<DbDeviceStatus> for DeviceStatus {
    fn from(val: DbDeviceStatus) -> (r: DeviceStatus)
        ensures
            r == device_status_shown(val),
    {
        match val {
            DbDeviceStatus::Online => DeviceStatus::Online,
            DbDeviceStatus::Offline => DeviceStatus::Offline,
            DbDeviceStatus::Maintenance => DeviceStatus::Maintenance,
        }
    }
}

impl vstd::std_specs::convert::FromSpecImpl<DbDeviceStatus> for DeviceStatus {
    open spec fn obeys_from_spec() -> bool {
        true
    }

    open spec fn from_spec(val: DbDeviceStatus) -> DeviceStatus {
        device_status_shown(val)
    }
}

/// The device status as records hold it.
pub open spec fn device_status_stored(val: DeviceStatus) -> DbDeviceStatus {
    match val {
        DeviceStatus::Online => DbDeviceStatus::Online,
        DeviceStatus::Offline => DbDeviceStatus::Offline,
        DeviceStatus::Maintenance => DbDeviceStatus::Maintenance,
    }
}

impl From<DeviceStatus> for DbDeviceStatus {
    fn from(val: DeviceStatus) -> (r: DbDeviceStatus)
        ensures
            r == device_status_stored(val),
    {
        match val {
            DeviceStatus::Online => DbDeviceStatus::Online,
            DeviceStatus::Offline => DbDeviceStatus::Offline,
            DeviceStatus::Maintenance => DbDeviceStatus::Maintenance,
        }
    }
}

impl vstd::std_specs::convert::FromSpecImpl<DeviceStatus> for DbDeviceStatus {
    open spec fn obeys_from_spec() -> bool {
        true
    }

    open spec fn from_spec(val: DeviceStatus) -> DbDeviceStatus {
        device_status_stored(val)
    }
}

/// A request for a new device.
#[derive(Clone, Debug, PartialEq, Eq)]
pub struct CreateDeviceRequest {
    pub name: String,
    pub reservoir_id: Option<i32>,
}

/// The fields of a device that are to change; a field that is `None`
/// stays. `reservoir_id` is `Some(None)` to take the device off its
/// reservoir.
#[derive(Clone, Debug, PartialEq, Eq)]
pub struct UpdateDeviceRequest {
    pub name: Option<String>,
    pub reservoir_id: Option<Option<i32>>,
    pub status: Option<DeviceStatus>,
}

/// A device as a response shows it. `last_seen` is in microseconds since
/// the Unix epoch.
#[derive(Clone, Debug, PartialEq, Eq)]
pub struct DeviceResponse {
    pub id: i32,
    pub name: String,
    pub reservoir_id: Option<i32>,
    pub status: DeviceStatus,
    pub last_seen: Option<i64>,
    pub api_key: String,
}

/// Showing what is stored and storing what is shown lose nothing.
pub proof fn lemma_device_status_round_trip(stored: DbDeviceStatus, shown: DeviceStatus)
    ensures
        device_status_stored(device_status_shown(stored)) == stored,
        device_status_shown(device_status_stored(shown)) == shown,
{
}

} // verus!
