//! What the alert operations take from and give to their callers.

use vstd::prelude::*;
use crate::double::Double;
use crate::models::entities::Alert as DbAlertLog;
use crate::models::entities::AlertConditionType as DbAlertConditionType;
use crate::models::entities::AlertRule as DbAlertRule;
use crate::models::entities::AlertStatus as DbAlertStatus;

verus! {

/// The comparison of an alert rule, as requests and responses name it.
#[derive(Clone, Copy, Debug, PartialEq, Eq, Structural)]
pub enum AlertConditionType {
    GreaterThan,
    LessThan,
    Equals,
    NotEquals,
    GreaterThanOrEqual,
    LessThanOrEqual,
}

/// The condition as requests and responses name it.
pub open spec fn condition_shown(val: DbAlertConditionType) -> AlertConditionType {
    match val {
        DbAlertConditionType::GreaterThan => AlertConditionType::GreaterThan,
        DbAlertConditionType::LessThan => AlertConditionType::LessThan,
        DbAlertConditionType::Equals => AlertConditionType::Equals,
        DbAlertConditionType::NotEquals => AlertConditionType::NotEquals,
        DbAlertConditionType::GreaterThanOrEqual => AlertConditionType::GreaterThanOrEqual,
        DbAlertConditionType::LessThanOrEqual => AlertConditionType::LessThanOrEqual,
    }
}

impl From<DbAlertConditionType> for AlertConditionType {
    fn from(val: DbAlertConditionType) -> (r: AlertConditionType)
        ensures
            r == condition_shown(val),
    {
        match val {
            DbAlertConditionType::GreaterThan => AlertConditionType::GreaterThan,
            DbAlertConditionType::LessThan => AlertConditionType::LessThan,
            DbAlertConditionType::Equals => AlertConditionType::Equals,
            DbAlertConditionType::NotEquals => AlertConditionType::NotEquals,
            DbAlertConditionType::GreaterThanOrEqual => AlertConditionType::GreaterThanOrEqual,
            DbAlertConditionType::LessThanOrEqual => AlertConditionType::LessThanOrEqual,
        }
    }
}

impl vstd::std_specs::convert::FromSpecImpl<DbAlertConditionType> for AlertConditionType {
    open spec fn obeys_from_spec() -> bool {
        true
    }

    open spec fn from_spec(val: DbAlertConditionType) -> AlertConditionType {
        condition_shown(val)
    }
}

/// The condition as records hold it.
pub open spec fn condition_stored(val: AlertConditionType) -> DbAlertConditionType {
    match val {
        AlertConditionType::GreaterThan => DbAlertConditionType::GreaterThan,
        AlertConditionType::LessThan => DbAlertConditionType::LessThan,
        AlertConditionType::Equals => DbAlertConditionType::Equals,
        AlertConditionType::NotEquals => DbAlertConditionType::NotEquals,
        AlertConditionType::GreaterThanOrEqual => DbAlertConditionType::GreaterThanOrEqual,
        AlertConditionType::LessThanOrEqual => DbAlertConditionType::LessThanOrEqual,
    }
}

impl From<AlertConditionType> for DbAlertConditionType {
    fn from(val: AlertConditionType) -> (r: DbAlertConditionType)
        ensures
            r == condition_stored(val),
    {
        match val {
            AlertConditionType::GreaterThan => DbAlertConditionType::GreaterThan,
            AlertConditionType::LessThan => DbAlertConditionType::LessThan,
            AlertConditionType::Equals => DbAlertConditionType::Equals,
            AlertConditionType::NotEquals => DbAlertConditionType::NotEquals,
            AlertConditionType::GreaterThanOrEqual => DbAlertConditionType::GreaterThanOrEqual,
            AlertConditionType::LessThanOrEqual => DbAlertConditionType::LessThanOrEqual,
        }
    }
}

impl vstd::std_specs::convert::FromSpecImpl<AlertConditionType> for DbAlertConditionType {
    open spec fn obeys_from_spec() -> bool {
        true
    }

    open spec fn from_spec(val: AlertConditionType) -> DbAlertConditionType {
        condition_stored(val)
    }
}

/// How a delivery ended, as responses name it.
#[derive(Clone, Copy, Debug, PartialEq, Eq, Structural)]
pub enum AlertStatus {
    Pending,
    Sent,
    Failed,
}

/// The status as requests and responses name it.
pub open spec fn status_shown(val: DbAlertStatus) -> AlertStatus {
    match val {
        DbAlertStatus::Pending => AlertStatus::Pending,
        DbAlertStatus::Sent => AlertStatus::Sent,
        DbAlertStatus::Failed => AlertStatus::Failed,
    }
}

impl From<DbAlertStatus> for AlertStatus {
    fn from(val: DbAlertStatus) -> (r: AlertStatus)
        ensures
            r == status_shown(val),
    {
        match val {
            DbAlertStatus::Pending => AlertStatus::Pending,
            DbAlertStatus::Sent => AlertStatus::Sent,
            DbAlertStatus::Failed => AlertStatus::Failed,
        }
    }
}

impl vstd::std_specs::convert::FromSpecImpl<DbAlertStatus> for AlertStatus {
    open spec fn obeys_from_spec() -> bool {
        true
    }

    open spec fn from_spec(val: DbAlertStatus) -> AlertStatus {
        status_shown(val)
    }
}

/// The status as records hold it.
pub open spec fn status_stored(val: AlertStatus) -> DbAlertStatus {
    match val {
        AlertStatus::Pending => DbAlertStatus::Pending,
        AlertStatus::Sent => DbAlertStatus::Sent,
        AlertStatus::Failed => DbAlertStatus::Failed,
    }
}

impl From<AlertStatus> for DbAlertStatus {
    fn from(val: AlertStatus) -> (r: DbAlertStatus)
        ensures
            r == status_stored(val),
    {
        match val {
            AlertStatus::Pending => DbAlertStatus::Pending,
            AlertStatus::Sent => DbAlertStatus::Sent,
            AlertStatus::Failed => DbAlertStatus::Failed,
        }
    }
}

impl vstd::std_specs::convert::FromSpecImpl<AlertStatus> for DbAlertStatus {
    open spec fn obeys_from_spec() -> bool {
        true
    }

    open spec fn from_spec(val: AlertStatus) -> DbAlertStatus {
        status_stored(val)
    }
}

/// A request for a new rule.
#[derive(Clone, Copy, Debug, PartialEq, Eq)]
pub struct CreateAlertRuleRequest {
    pub reservoir_id: i32,
    pub condition_type: AlertConditionType,
    pub threshold: Double,
}

/// A rule as a response shows it.
#[derive(Clone, Copy, Debug, PartialEq, Eq)]
pub struct AlertRuleResponse {
    pub id: i32,
    pub reservoir_id: i32,
    pub condition_type: AlertConditionType,
    pub threshold: Double,
    pub is_active: bool,
}

impl From<DbAlertRule> for AlertRuleResponse {
    fn from(val: DbAlertRule) -> (r: AlertRuleResponse) {
        AlertRuleResponse {
            id: val.id,
            reservoir_id: val.reservoir_id,
            condition_type: AlertConditionType::from(val.condition_type),
            threshold: val.threshold,
            is_active: val.is_active,
        }
    }
}

impl vstd::std_specs::convert::FromSpecImpl<DbAlertRule> for AlertRuleResponse {
    open spec fn obeys_from_spec() -> bool {
        true
    }

    open spec fn from_spec(val: DbAlertRule) -> AlertRuleResponse {
        AlertRuleResponse {
            id: val.id,
            reservoir_id: val.reservoir_id,
            condition_type: condition_shown(val.condition_type),
            threshold: val.threshold,
            is_active: val.is_active,
        }
    }
}

/// An entry of the alert history as a response shows it. `triggered_at` is
/// in microseconds since the Unix epoch.
#[derive(Clone, Debug, PartialEq, Eq)]
pub struct AlertLogResponse {
    pub id: i32,
    pub rule_id: i32,
    pub triggered_at: i64,
    pub sent_to: String,
    pub status: AlertStatus,
}

impl From<DbAlertLog> for AlertLogResponse {
    fn from(val: DbAlertLog) -> (r: AlertLogResponse) {
        AlertLogResponse {
            id: val.id,
            rule_id: val.rule_id,
            triggered_at: val.triggered_at,
            sent_to: val.sent_to,
            status: AlertStatus::from(val.status),
        }
    }
}

impl vstd::std_specs::convert::FromSpecImpl<DbAlertLog> for AlertLogResponse {
    open spec fn obeys_from_spec() -> bool {
        true
    }

    open spec fn from_spec(val: DbAlertLog) -> AlertLogResponse {
        AlertLogResponse {
            id: val.id,
            rule_id: val.rule_id,
            triggered_at: val.triggered_at,
            sent_to: val.sent_to,
            status: status_shown(val.status),
        }
    }
}

/// The fields of a rule that are to change; a field that is `None` stays.
#[derive(Clone, Copy, Debug, PartialEq, Eq)]
pub struct UpdateAlertRuleRequest {
    pub condition_type: Option<AlertConditionType>,
    pub threshold: Option<Double>,
    pub is_active: Option<bool>,
}

/// Which part of a user's alert history is asked for: at most `limit`
/// entries (50 where none is given) after the first `offset` (none where
/// none is given).
#[derive(Clone, Copy, Debug, PartialEq, Eq)]
pub struct AlertHistoryQuery {
    pub limit: Option<u64>,
    pub offset: Option<u64>,
}

/// Showing what is stored and storing what is shown lose nothing.
pub proof fn lemma_condition_round_trip(stored: DbAlertConditionType, shown: AlertConditionType)
    ensures
        condition_stored(condition_shown(stored)) == stored,
        condition_shown(condition_stored(shown)) == shown,
{
}

/// Showing what is stored and storing what is shown lose nothing.
pub proof fn lemma_status_round_trip(stored: DbAlertStatus, shown: AlertStatus)
    ensures
        status_stored(status_shown(stored)) == stored,
        status_shown(status_stored(shown)) == shown,
{
}

} // verus!
