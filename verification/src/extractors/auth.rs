//! The user behind a session token.

use vstd::prelude::*;
use crate::error::AppError;
use crate::error::AuthError;
use crate::models::entities::User;
use crate::models::entities::UserRole;

verus! {

/// A user who has shown a valid token.
#[derive(Clone, Debug, PartialEq, Eq)]
pub struct AuthUser {
    pub id: i32,
    pub email: String,
    pub role: UserRole,
}

impl AuthUser {
    /// What a token that could not be read comes to: expired where its time
    /// has run out, invalid in every other case.
    pub fn token_error(expired: bool) -> (e: AuthError)
        ensures
            e == if expired {
                AuthError::TokenExpired
            } else {
                AuthError::InvalidToken
            },
    {
        if expired {
            AuthError::TokenExpired
        } else {
            AuthError::InvalidToken
        }
    }

    /// The user that a token stands for, from what was found under the id
    /// that the token names.
    pub fn from_lookup(found: Option<User>) -> (r: Result<AuthUser, AppError>)
        ensures
            match found {
                None => r == Err::<AuthUser, AppError>(AppError::UserNotFound),
                Some(user) => r == Ok::<AuthUser, AppError>(
                    AuthUser { id: user.id, email: user.email, role: user.role },
                ),
            },
    {
        match found {
            None => Err(AppError::UserNotFound),
            Some(user) => Ok(AuthUser { id: user.id, email: user.email, role: user.role }),
        }
    }
}

/// A user who has shown a valid token and is an administrator.
#[derive(Clone, Debug, PartialEq, Eq)]
pub struct AuthAdmin(pub AuthUser);

impl AuthAdmin {
    /// The administrator that a user is; `PermissionDenied` for a user of
    /// any other role.
    pub fn from_user(user: AuthUser) -> (r: Result<AuthAdmin, AppError>)
        ensures
            r == if user.role == UserRole::Admin {
                Ok::<AuthAdmin, AppError>(AuthAdmin(user))
            } else {
                Err::<AuthAdmin, AppError>(AppError::PermissionDenied)
            },
    {
        match user.role {
            UserRole::Admin => Ok(AuthAdmin(user)),
            _ => Err(AppError::PermissionDenied),
        }
    }
}

} // verus!
