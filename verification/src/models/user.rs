//! What is decided about user accounts around their storage.

use vstd::prelude::*;
use crate::error::AppError;
use crate::models::entities::User;
use crate::models::entities::UserRole;
use crate::views::auth::UpdateProfileRequest;

verus! {

/// The operations on user accounts.
pub struct Users;

/// A user with the numbers of its reservoirs and devices. `created_at` is in
/// microseconds since the Unix epoch.
#[derive(Clone, Debug, PartialEq, Eq)]
pub struct UserWithStats {
    pub id: i32,
    pub email: String,
    pub first_name: Option<String>,
    pub last_name: Option<String>,
    pub role: UserRole,
    pub created_at: Option<i64>,
    pub reservoirs_count: i64,
    pub devices_count: i64,
    pub is_banned: bool,
    pub ban_reason: Option<String>,
}

/// An account that is about to be stored: all of a `User` but what the
/// storage gives it.
#[derive(Clone, Debug, PartialEq, Eq)]
pub struct NewUser {
    pub email: String,
    pub hashed_password: String,
    pub first_name: Option<String>,
    pub last_name: Option<String>,
    pub role: UserRole,
}

/// A user with the role `role`, and all else as it was.
pub open spec fn with_role(user: User, role: UserRole) -> User {
    User { role, ..user }
}

/// A user after a change of profile: each name that the request gives
/// replaces the user's, each that it leaves out stays.
pub open spec fn with_profile(user: User, data: UpdateProfileRequest) -> User {
    User {
        first_name: match data.first_name {
            Some(name) => Some(name),
            None => user.first_name,
        },
        last_name: match data.last_name {
            Some(name) => Some(name),
            None => user.last_name,
        },
        ..user
    }
}

impl Users {
    /// Whether an email is taken, from the number of accounts that have it.
    pub fn exists_by_email(count: u64) -> (taken: bool)
        ensures
            taken == (count > 0),
    {
        count > 0
    }

    /// The account to store for a new user. Without a role it is a `User`.
    pub fn create(
        email: String,
        hashed_password: String,
        first_name: Option<String>,
        last_name: Option<String>,
        role: Option<UserRole>,
    ) -> (new_user: NewUser)
        ensures
            new_user == (NewUser {
                email,
                hashed_password,
                first_name,
                last_name,
                role: match role {
                    Some(r) => r,
                    None => UserRole::User,
                },
            }),
    {
        NewUser {
            email,
            hashed_password,
            first_name,
            last_name,
            role: match role {
                Some(r) => r,
                None => UserRole::User,
            },
        }
    }

    /// What was looked up for a user id; `UserNotFound` where there is
    /// nothing.
    pub fn get_by_id<T>(found: Option<T>) -> (r: Result<T, AppError>)
        ensures
            r == match found {
                Some(user) => Ok::<T, AppError>(user),
                None => Err::<T, AppError>(AppError::UserNotFound),
            },
    {
        match found {
            Some(user) => Ok(user),
            None => Err(AppError::UserNotFound),
        }
    }

    /// The user with its new role; `UserNotFound` where there is no user.
    pub fn update_role(found: Option<User>, new_role: UserRole) -> (r: Result<User, AppError>)
        ensures
            r == match found {
                Some(user) => Ok::<User, AppError>(with_role(user, new_role)),
                None => Err::<User, AppError>(AppError::UserNotFound),
            },
    {
        match found {
            Some(user) => {
                let mut user = user;
                user.role = new_role;
                Ok(user)
            },
            None => Err(AppError::UserNotFound),
        }
    }

    /// The user with the names that the request gives; `UserNotFound` where
    /// there is no user.
    pub fn update_profile(found: Option<User>, data: UpdateProfileRequest) -> (r: Result<
        User,
        AppError,
    >)
        ensures
            r == match found {
                Some(user) => Ok::<User, AppError>(with_profile(user, data)),
                None => Err::<User, AppError>(AppError::UserNotFound),
            },
    {
        match found {
            Some(user) => {
                let mut user = user;
                if let Some(first_name) = data.first_name {
                    user.first_name = Some(first_name);
                }
                if let Some(last_name) = data.last_name {
                    user.last_name = Some(last_name);
                }
                Ok(user)
            },
            None => Err(AppError::UserNotFound),
        }
    }
}

} // verus!
