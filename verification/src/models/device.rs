//! What is decided about devices around their storage.

use vstd::prelude::*;
use vstd::string::StringExecFns;
use crate::error::AppError;
use crate::models::entities::Device;
use crate::models::entities::DeviceStatus;
use crate::views::device::device_status_stored;
use crate::views::device::CreateDeviceRequest;
use crate::views::device::UpdateDeviceRequest;

verus! {

/// The operations on devices.
pub struct Devices;

/// A device that is about to be stored: all of a `Device` but what the
/// storage gives it.
#[derive(Clone, Debug, PartialEq, Eq)]
pub struct NewDevice {
    pub user_id: i32,
    pub name: String,
    pub reservoir_id: Option<i32>,
    pub api_key: String,
    pub status: DeviceStatus,
}

/// The length of an API key: 32 hexadecimal digits in five groups, with a
/// hyphen between two groups.
pub const API_KEY_LENGTH: usize = 36;

/// A new API key: a random version-4 UUID from `uuid::Uuid::new_v4`, written
/// out by its `to_string`, which gives the hyphenated form of 36
/// characters. Which key comes out is left open. As `new_v4` does, this
/// panics where the system gives no random bytes.
#[verifier::external_body]
fn fresh_api_key() -> (key: String)
    ensures
        key@.len() == API_KEY_LENGTH,
{
    uuid::Uuid::new_v4().to_string()
}

/// A device after an update: each field that the request gives replaces
/// the device's, each that it leaves out stays. A request can take the
/// device off its reservoir.
pub open spec fn with_changes(model: Device, data: UpdateDeviceRequest) -> Device {
    Device {
        id: model.id,
        user_id: model.user_id,
        reservoir_id: match data.reservoir_id {
            Some(reservoir_id) => reservoir_id,
            None => model.reservoir_id,
        },
        name: match data.name {
            Some(name) => name,
            None => model.name,
        },
        api_key: model.api_key,
        status: match data.status {
            Some(status) => device_status_stored(status),
            None => model.status,
        },
        last_seen: model.last_seen,
    }
}

impl Devices {
    /// The device to store for the user `user_id` under the key `api_key`.
    /// A new device is `Offline`.
    pub fn with_key(user_id: i32, data: CreateDeviceRequest, api_key: String) -> (new_device:
        NewDevice)
        ensures
            new_device == (NewDevice {
                user_id,
                name: data.name,
                reservoir_id: data.reservoir_id,
                api_key,
                status: DeviceStatus::Offline,
            }),
    {
        NewDevice {
            user_id,
            name: data.name,
            reservoir_id: data.reservoir_id,
            api_key,
            status: DeviceStatus::Offline,
        }
    }

    /// The device to store for the user `user_id`, under a new random key.
    pub fn create(user_id: i32, data: CreateDeviceRequest) -> (new_device: NewDevice)
        ensures
            new_device.user_id == user_id,
            new_device.name == data.name,
            new_device.reservoir_id == data.reservoir_id,
            new_device.status == DeviceStatus::Offline,
            new_device.api_key@.len() == API_KEY_LENGTH,
    {
        Devices::with_key(user_id, data, fresh_api_key())
    }

    /// What was looked up for an owner and an id; `NotFound` where there is
    /// nothing.
    pub fn found<T>(model: Option<T>) -> (r: Result<T, AppError>)
        ensures
            match model {
                Some(device) => r == Ok::<T, AppError>(device),
                None => r matches Err(e) && e.is_not_found("Device not found"@),
            },
    {
        match model {
            Some(device) => Ok(device),
            None => Err(AppError::NotFound { msg: String::from_str("Device not found") }),
        }
    }

    /// The device with the changes that the request gives. Fails with
    /// `NotFound` where there is no device, and with `PermissionDenied`
    /// where the device is not the user's.
    pub fn update(model: Option<Device>, user_id: i32, data: UpdateDeviceRequest) -> (r: Result<
        Device,
        AppError,
    >)
        ensures
            match model {
                None => r matches Err(e) && e.is_not_found("Device not found"@),
                Some(device) => if device.user_id != user_id {
                    r == Err::<Device, AppError>(AppError::PermissionDenied)
                } else {
                    r == Ok::<Device, AppError>(with_changes(device, data))
                },
            },
    {
        match Devices::found(model) {
            Err(e) => Err(e),
            Ok(device) => {
                if device.user_id != user_id {
                    return Err(AppError::PermissionDenied);
                }
                let mut device = device;
                if let Some(name) = data.name {
                    device.name = name;
                }
                match data.reservoir_id {
                    Some(Some(reservoir_id)) => {
                        device.reservoir_id = Some(reservoir_id);
                    },
                    Some(None) => {
                        device.reservoir_id = None;
                    },
                    None => {},
                }
                if let Some(status) = data.status {
                    device.status = DeviceStatus::from(status);
                }
                Ok(device)
            },
        }
    }

    /// What a deletion comes to, from the number of rows that it removed:
    /// `NotFound` where it removed none.
    pub fn delete(rows_affected: u64) -> (r: Result<(), AppError>)
        ensures
            rows_affected > 0 ==> r is Ok,
            rows_affected == 0 ==> (r matches Err(e) && e.is_not_found("Device not found"@)),
    {
        if rows_affected == 0 {
            return Err(AppError::NotFound { msg: String::from_str("Device not found") });
        }
        Ok(())
    }

    /// The device under the key `new_key`, and all else as it was;
    /// `NotFound` where there is no device.
    pub fn with_new_key(model: Option<Device>, new_key: String) -> (r: Result<Device, AppError>)
        ensures
            match model {
                Some(device) => r == Ok::<Device, AppError>(Device { api_key: new_key, ..device }),
                None => r matches Err(e) && e.is_not_found("Device not found"@),
            },
    {
        match Devices::found(model) {
            Err(e) => Err(e),
            Ok(device) => {
                let mut device = device;
                device.api_key = new_key;
                Ok(device)
            },
        }
    }

    /// The device under a new random key, and all else as it was;
    /// `NotFound` where there is no device. The new key is the device's
    /// `api_key`.
    pub fn rotate_api_key(model: Option<Device>) -> (r: Result<Device, AppError>)
        ensures
            match model {
                Some(device) => r matches Ok(rotated) && rotated.api_key@.len() == API_KEY_LENGTH
                    && rotated == (Device { api_key: rotated.api_key, ..device }),
                None => r matches Err(e) && e.is_not_found("Device not found"@),
            },
    {
        match model {
            None => Devices::with_new_key(None, String::new()),
            Some(device) => Devices::with_new_key(Some(device), fresh_api_key()),
        }
    }
}

} // verus!
