//! The device behind an API key.

use vstd::prelude::*;
use crate::error::AppError;
use crate::models::entities::Device;
use crate::models::entities::User;

verus! {

/// A device that has shown its API key.
#[derive(Clone, Copy, Debug, PartialEq, Eq)]
pub struct AuthDevice {
    pub id: i32,
    pub reservoir_id: Option<i32>,
}

impl AuthDevice {
    /// The API key of a request, from its `x-api-key` header: `header` is
    /// `None` where the request has no such header, and holds `None` where
    /// the header is not text.
    pub fn api_key<'a>(header: Option<Option<&'a str>>) -> (r: Result<&'a str, AppError>)
        ensures
            match header {
                None => r == Err::<&str, AppError>(AppError::MissingCredentials),
                Some(None) => r == Err::<&str, AppError>(AppError::InvalidToken),
                Some(Some(key)) => r == Ok::<&str, AppError>(key),
            },
    {
        match header {
            None => Err(AppError::MissingCredentials),
            Some(None) => Err(AppError::InvalidToken),
            Some(Some(key)) => Ok(key),
        }
    }

    /// The device that a key stands for, from what was found under the key:
    /// no device is an invalid key; a device without an owner, or with a
    /// banned owner, is denied.
    pub fn from_lookup(found: Option<(Device, Option<User>)>) -> (r: Result<AuthDevice, AppError>)
        ensures
            match found {
                None => r == Err::<AuthDevice, AppError>(AppError::InvalidToken),
                Some((_, None)) => r == Err::<AuthDevice, AppError>(AppError::PermissionDenied),
                Some((device, Some(user))) => if user.is_banned {
                    r == Err::<AuthDevice, AppError>(AppError::PermissionDenied)
                } else {
                    r == Ok::<AuthDevice, AppError>(
                        AuthDevice { id: device.id, reservoir_id: device.reservoir_id },
                    )
                },
            },
    {
        match found {
            None => Err(AppError::InvalidToken),
            Some((_, None)) => Err(AppError::PermissionDenied),
            Some((device, Some(user))) => {
                if user.is_banned {
                    Err(AppError::PermissionDenied)
                } else {
                    Ok(AuthDevice { id: device.id, reservoir_id: device.reservoir_id })
                }
            },
        }
    }
}

} // verus!
