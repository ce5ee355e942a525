//! The records that the operations read and write, one type for each table.

use vstd::prelude::*;
use crate::double::Double;

verus! {

/// The comparison that an alert rule makes between a measured value and its
/// threshold.
#[derive(Clone, Copy, Debug, PartialEq, Eq, Structural)]
pub enum AlertConditionType {
    GreaterThan,
    LessThan,
    Equals,
    NotEquals,
    GreaterThanOrEqual,
    LessThanOrEqual,
}

/// How the delivery of one alert ended. An entry of the history is written
/// once the attempt is over, so it holds `Sent` or `Failed`.
#[derive(Clone, Copy, Debug, PartialEq, Eq, Structural)]
pub enum AlertStatus {
    Pending,
    Sent,
    Failed,
}

/// What a user may do.
#[derive(Clone, Copy, Debug, PartialEq, Eq, Structural)]
pub enum UserRole {
    Admin,
    User,
    Viewer,
}

/// What a device last reported of itself.
#[derive(Clone, Copy, Debug, PartialEq, Eq, Structural)]
pub enum DeviceStatus {
    Online,
    Offline,
    Maintenance,
}

/// A threshold condition on the measurements of one reservoir.
#[derive(Clone, Copy, Debug, PartialEq, Eq, Structural)]
pub struct AlertRule {
    pub id: i32,
    pub reservoir_id: i32,
    pub condition_type: AlertConditionType,
    pub threshold: Double,
    pub is_active: bool,
}

/// One entry of the alert history: a rule was triggered, and a notification
/// to `sent_to` was attempted, with the outcome `status`. `triggered_at` is in
/// microseconds since the Unix epoch.
#[derive(Clone, Debug, PartialEq, Eq)]
pub struct Alert {
    pub id: i32,
    pub rule_id: i32,
    pub triggered_at: i64,
    pub sent_to: String,
    pub status: AlertStatus,
}

/// An entry of the alert history as a plain value.
pub struct AlertView {
    pub id: i32,
    pub rule_id: i32,
    pub triggered_at: i64,
    pub sent_to: Seq<char>,
    pub status: AlertStatus,
}

impl View for Alert {
    type V = AlertView;

    open spec fn view(&self) -> AlertView {
        AlertView {
            id: self.id,
            rule_id: self.rule_id,
            triggered_at: self.triggered_at,
            sent_to: self.sent_to@,
            status: self.status,
        }
    }
}

/// A monitored tank. `user_id` is its one owner.
#[derive(Clone, Debug, PartialEq, Eq)]
pub struct Reservoir {
    pub id: i32,
    pub user_id: i32,
    pub name: String,
    pub description: Option<String>,
    pub capacity: Double,
    pub location: Option<String>,
}

/// An account. `email` is the address that its alerts are sent to.
/// `created_at` is in microseconds since the Unix epoch.
#[derive(Clone, Debug, PartialEq, Eq)]
pub struct User {
    pub id: i32,
    pub email: String,
    pub hashed_password: String,
    pub first_name: Option<String>,
    pub last_name: Option<String>,
    pub role: UserRole,
    pub is_banned: bool,
    pub ban_reason: Option<String>,
    pub created_at: Option<i64>,
}

/// A sensor device. `last_seen` is in microseconds since the Unix epoch.
#[derive(Clone, Debug, PartialEq, Eq)]
pub struct Device {
    pub id: i32,
    pub user_id: i32,
    pub reservoir_id: Option<i32>,
    pub name: String,
    pub api_key: String,
    pub status: DeviceStatus,
    pub last_seen: Option<i64>,
}

/// One reading of a device. `time` is in microseconds since the Unix epoch.
#[derive(Clone, Copy, Debug, PartialEq, Eq, Structural)]
pub struct Measurement {
    pub time: i64,
    pub device_id: i32,
    pub value: Double,
}

impl AlertConditionType {
    /// The variant's name.
    pub open spec fn name_spec(self) -> Seq<char> {
        match self {
            AlertConditionType::GreaterThan => "GreaterThan"@,
            AlertConditionType::LessThan => "LessThan"@,
            AlertConditionType::Equals => "Equals"@,
            AlertConditionType::NotEquals => "NotEquals"@,
            AlertConditionType::GreaterThanOrEqual => "GreaterThanOrEqual"@,
            AlertConditionType::LessThanOrEqual => "LessThanOrEqual"@,
        }
    }

    /// The variant's name, as it stands in an alert's text.
    pub fn name(&self) -> (text: &'static str)
        ensures
            text@ == self.name_spec(),
    {
        match self {
            AlertConditionType::GreaterThan => "GreaterThan",
            AlertConditionType::LessThan => "LessThan",
            AlertConditionType::Equals => "Equals",
            AlertConditionType::NotEquals => "NotEquals",
            AlertConditionType::GreaterThanOrEqual => "GreaterThanOrEqual",
            AlertConditionType::LessThanOrEqual => "LessThanOrEqual",
        }
    }
}

} // verus!
