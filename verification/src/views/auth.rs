//! What the account operations take from and give to their callers.

use vstd::prelude::*;
use crate::views::admin::UserRole;

verus! {

/// A request for a new account.
#[derive(Clone, Debug, PartialEq, Eq)]
pub struct RegisterRequest {
    pub email: String,
    pub password: String,
    pub first_name: Option<String>,
    pub last_name: Option<String>,
}

/// A request to sign in.
#[derive(Clone, Debug, PartialEq, Eq)]
pub struct LoginRequest {
    pub email: String,
    pub password: String,
}

/// The token of a signed-in user.
#[derive(Clone, Debug, PartialEq, Eq)]
pub struct AuthResponse {
    pub token: String,
    pub user_id: i32,
    pub email: String,
}

/// A user as it sees itself. `created_at` is in microseconds since the Unix
/// epoch.
#[derive(Clone, Debug, PartialEq, Eq)]
pub struct UserProfileResponse {
    pub id: i32,
    pub email: String,
    pub first_name: Option<String>,
    pub last_name: Option<String>,
    pub role: UserRole,
    pub created_at: i64,
}

/// The names that are to change; a name that is `None` stays.
#[derive(Clone, Debug, PartialEq, Eq)]
pub struct UpdateProfileRequest {
    pub first_name: Option<String>,
    pub last_name: Option<String>,
}

/// A request for a new password.
#[derive(Clone, Debug, PartialEq, Eq)]
pub struct ChangePasswordRequest {
    pub current_password: String,
    pub new_password: String,
}

} // verus!
