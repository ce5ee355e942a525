//! What the administrative operations take from and give to their callers.

use vstd::prelude::*;
use crate::models::entities::UserRole as DbUserRole;
use crate::models::user::UserWithStats;

verus! {

/// What a user may do, as requests and responses name it.
#[derive(Clone, Copy, Debug, PartialEq, Eq, Structural)]
pub enum UserRole {
    Admin,
    User,
    Viewer,
}

/// The role as requests and responses name it.
pub open spec fn role_shown(val: DbUserRole) -> UserRole {
    match val {
        DbUserRole::Admin => UserRole::Admin,
        DbUserRole::User => UserRole::User,
        DbUserRole::Viewer => UserRole::Viewer,
    }
}

impl From<DbUserRole> for UserRole {
    fn from(val: DbUserRole) -> (r: UserRole)
        ensures
            r == role_shown(val),
    {
        match val {
            DbUserRole::Admin => UserRole::Admin,
            DbUserRole::User => UserRole::User,
            DbUserRole::Viewer => UserRole::Viewer,
        }
    }
}

impl vstd::std_specs::convert::FromSpecImpl<DbUserRole> for UserRole {
    open spec fn obeys_from_spec() -> bool {
        true
    }

    open spec fn from_spec(val: DbUserRole) -> UserRole {
        role_shown(val)
    }
}

/// The role as records hold it.
pub open spec fn role_stored(val: UserRole) -> DbUserRole {
    match val {
        UserRole::Admin => DbUserRole::Admin,
        UserRole::User => DbUserRole::User,
        UserRole::Viewer => DbUserRole::Viewer,
    }
}

impl From<UserRole> for DbUserRole {
    fn from(val: UserRole) -> (r: DbUserRole)
        ensures
            r == role_stored(val),
    {
        match val {
            UserRole::Admin => DbUserRole::Admin,
            UserRole::User => DbUserRole::User,
            UserRole::Viewer => DbUserRole::Viewer,
        }
    }
}

impl vstd::std_specs::convert::FromSpecImpl<UserRole> for DbUserRole {
    open spec fn obeys_from_spec() -> bool {
        true
    }

    open spec fn from_spec(val: UserRole) -> DbUserRole {
        role_stored(val)
    }
}

/// A user as an administrator sees it. `created_at` is in microseconds since
/// the Unix epoch.
#[derive(Clone, Debug, PartialEq, Eq)]
pub struct AdminUserDetailsResponse {
    pub id: i32,
    pub email: String,
    pub first_name: Option<String>,
    pub last_name: Option<String>,
    pub role: UserRole,
    pub created_at: i64,
    pub reservoirs_count: u64,
    pub devices_count: u64,
    pub is_banned: bool,
    pub ban_reason: Option<String>,
}

/// What the response shows of a user and its counts: every field as it is,
/// the role in the naming of responses, a missing creation time as the
/// epoch, and each count as the unsigned number with the same 64 bits.
pub open spec fn details_shown(val: UserWithStats) -> AdminUserDetailsResponse {
    AdminUserDetailsResponse {
        id: val.id,
        email: val.email,
        first_name: val.first_name,
        last_name: val.last_name,
        role: role_shown(val.role),
        created_at: match val.created_at {
            Some(t) => t,
            None => 0,
        },
        reservoirs_count: val.reservoirs_count as u64,
        devices_count: val.devices_count as u64,
        is_banned: val.is_banned,
        ban_reason: val.ban_reason,
    }
}

impl From<UserWithStats> for AdminUserDetailsResponse {
    fn from(val: UserWithStats) -> (r: AdminUserDetailsResponse)
        ensures
            r == details_shown(val),
    {
        AdminUserDetailsResponse {
            id: val.id,
            email: val.email,
            first_name: val.first_name,
            last_name: val.last_name,
            role: UserRole::from(val.role),
            created_at: match val.created_at {
                Some(t) => t,
                None => 0,
            },
            reservoirs_count: val.reservoirs_count as u64,
            devices_count: val.devices_count as u64,
            is_banned: val.is_banned,
            ban_reason: val.ban_reason,
        }
    }
}

impl vstd::std_specs::convert::FromSpecImpl<UserWithStats> for AdminUserDetailsResponse {
    open spec fn obeys_from_spec() -> bool {
        true
    }

    open spec fn from_spec(val: UserWithStats) -> AdminUserDetailsResponse {
        details_shown(val)
    }
}

/// The role that a user is to be given.
#[derive(Clone, Copy, Debug, PartialEq, Eq)]
pub struct UpdateRoleParams {
    pub role: UserRole,
}

/// Which entries of the audit log are asked for.
#[derive(Clone, Debug, PartialEq, Eq)]
pub struct LogQuery {
    pub table_name: Option<String>,
    pub operation: Option<String>,
    pub record_id: Option<String>,
    pub limit: Option<u64>,
    pub offset: Option<u64>,
}

/// The counts of the dashboard.
#[derive(Clone, Copy, Debug, PartialEq, Eq)]
pub struct SystemStatsResponse {
    pub total_users: u64,
    pub total_reservoirs: u64,
    pub total_devices: u64,
    pub alert_rules_active: u64,
}

/// Whether a user is to be banned, and why.
#[derive(Clone, Debug, PartialEq, Eq)]
pub struct BanUserRequest {
    pub is_banned: bool,
    pub ban_reason: Option<String>,
}

/// Showing what is stored and storing what is shown lose nothing.
pub proof fn lemma_role_round_trip(stored: DbUserRole, shown: UserRole)
    ensures
        role_stored(role_shown(stored)) == stored,
        role_shown(role_stored(shown)) == shown,
{
}

} // verus!
