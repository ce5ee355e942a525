//! Alert rules and the alert history: who may change a rule, which rules a
//! measured value triggers, and what is recorded of each attempt to notify
//! the owner.

use vstd::prelude::*;
use vstd::string::StringExecFns;
use crate::double::Double;
use crate::error::AppError;
use crate::models::entities::Alert;
use crate::models::entities::AlertConditionType;
use crate::models::entities::AlertRule;
use crate::models::entities::AlertStatus;
use crate::models::entities::AlertView;
use crate::models::entities::Reservoir;
use crate::models::entities::User;
use crate::models::store::has_reservoir;
use crate::models::store::has_rule;
use crate::models::store::has_user;
use crate::models::store::reservoir_index;
use crate::models::store::rule_by_id;
use crate::models::store::rule_index;
use crate::models::store::rules_of;
use crate::models::store::threshold_text;
use crate::models::store::user_index;
use crate::models::store::lemma_rule_index;
use crate::models::store::Store;
use crate::models::store::StoreView;
use crate::services::notification::alert_subject;
use crate::services::notification::subject_spec;
use crate::services::notification::AlertNotice;
use crate::services::notification::DispatchError;
use crate::services::notification::Dispatcher;
use crate::utils::clock::utc_now_micros;
use crate::views::alert::AlertHistoryQuery;

verus! {

/// The operations on alert rules and on the alert history.
pub struct Alerts;

/// Whether a measured `value` meets the condition against `threshold`.
///
/// | condition | holds when |
/// |---|---|
/// | `GreaterThan` | `value > threshold` |
/// | `LessThan` | `value < threshold` |
/// | `Equals` | `|value - threshold| < epsilon` |
/// | `NotEquals` | `|value - threshold| >= epsilon` |
/// | `GreaterThanOrEqual` | `value >= threshold` |
/// | `LessThanOrEqual` | `value <= threshold` |
///
/// Each comparison is that of two doubles, epsilon being 2^-52; with a NaN on
/// either side none of them holds.
pub open spec fn evaluate_spec(
    condition: AlertConditionType,
    threshold: Double,
    value: Double,
) -> bool {
    match condition {
        AlertConditionType::GreaterThan => value.gt_spec(threshold),
        AlertConditionType::LessThan => value.lt_spec(threshold),
        AlertConditionType::Equals => value.close_spec(threshold),
        AlertConditionType::NotEquals => value.apart_spec(threshold),
        AlertConditionType::GreaterThanOrEqual => value.ge_spec(threshold),
        AlertConditionType::LessThanOrEqual => value.le_spec(threshold),
    }
}

/// Whether a measured `value` meets the condition against `threshold`.
pub fn evaluate(condition: AlertConditionType, threshold: Double, value: Double) -> (triggered:
    bool)
    ensures
        triggered == evaluate_spec(condition, threshold, value),
{
    match condition {
        AlertConditionType::GreaterThan => value.gt(&threshold),
        AlertConditionType::LessThan => value.lt(&threshold),
        AlertConditionType::Equals => value.close_to(&threshold),
        AlertConditionType::NotEquals => value.apart_from(&threshold),
        AlertConditionType::GreaterThanOrEqual => value.ge(&threshold),
        AlertConditionType::LessThanOrEqual => value.le(&threshold),
    }
}

/// Whether `rule` is triggered by a `value` measured in the reservoir
/// `reservoir_id`: it is a rule of that reservoir, it is active, and its
/// condition holds.
pub open spec fn fires(rule: AlertRule, reservoir_id: i32, value: Double) -> bool {
    rule.reservoir_id == reservoir_id && rule.is_active && evaluate_spec(
        rule.condition_type,
        rule.threshold,
        value,
    )
}

/// The rules among `rules` that a `value` measured in the reservoir
/// `reservoir_id` triggers, in the order of `rules`.
pub open spec fn triggered(rules: Seq<AlertRule>, reservoir_id: i32, value: Double) -> Seq<
    AlertRule,
>
    decreases rules.len(),
{
    if rules.len() == 0 {
        Seq::empty()
    } else {
        let earlier = triggered(rules.drop_last(), reservoir_id, value);
        if fires(rules.last(), reservoir_id, value) {
            earlier.push(rules.last())
        } else {
            earlier
        }
    }
}

/// A rule after an update in which only the given fields are set.
pub open spec fn updated(
    rule: AlertRule,
    condition: Option<AlertConditionType>,
    threshold: Option<Double>,
    is_active: Option<bool>,
) -> AlertRule {
    AlertRule {
        id: rule.id,
        reservoir_id: rule.reservoir_id,
        condition_type: match condition {
            Some(c) => c,
            None => rule.condition_type,
        },
        threshold: match threshold {
            Some(t) => t,
            None => rule.threshold,
        },
        is_active: match is_active {
            Some(a) => a,
            None => rule.is_active,
        },
    }
}

/// The id of the user who owns the reservoir of the rule `rule_id`; `None`
/// where the rule or its reservoir is missing.
pub open spec fn rule_owner(s: StoreView, rule_id: i32) -> Option<i32> {
    match rule_by_id(s.rules, rule_id) {
        Some(rule) => s.owner_of(rule.reservoir_id),
        None => None,
    }
}

/// What the history says of a delivery: `Sent` where the dispatcher
/// succeeded, `Failed` where it returned an error.
pub open spec fn status_of(outcome: Result<(), DispatchError>) -> AlertStatus {
    if outcome is Ok {
        AlertStatus::Sent
    } else {
        AlertStatus::Failed
    }
}

/// What the guard answers to `user_id` about a record whose owner is
/// `owner`: the record is missing, the user is not its owner, or the user
/// may go on.
pub open spec fn guard_spec(owner: Option<i32>, user_id: i32, missing: Seq<char>, r: Result<
    (),
    AppError,
>) -> bool {
    match owner {
        None => r matches Err(e) && e.is_not_found(missing),
        Some(o) => if o == user_id {
            r is Ok
        } else {
            r == Err::<(), AppError>(AppError::PermissionDenied)
        },
    }
}

impl Alerts {
    /// The guard on every operation on rules: a record without an owner is
    /// not found, and only its owner may go on.
    pub fn authorize(owner: Option<i32>, user_id: i32, missing: &str) -> (r: Result<
        (),
        AppError,
    >)
        ensures
            guard_spec(owner, user_id, missing@, r),
    {
        match owner {
            None => Err(AppError::NotFound { msg: String::from_str(missing) }),
            Some(o) => {
                if o != user_id {
                    Err(AppError::PermissionDenied)
                } else {
                    Ok(())
                }
            },
        }
    }

    /// An update of `rule` in which only the given fields are set.
    pub fn apply_update(
        rule: AlertRule,
        condition: Option<AlertConditionType>,
        threshold: Option<Double>,
        is_active: Option<bool>,
    ) -> (r: AlertRule)
        ensures
            r == updated(rule, condition, threshold, is_active),
    {
        let mut r = rule;
        if let Some(c) = condition {
            r.condition_type = c;
        }
        if let Some(t) = threshold {
            r.threshold = t;
        }
        if let Some(a) = is_active {
            r.is_active = a;
        }
        r
    }

    /// The rules among `rules` that a `value` measured in the reservoir
    /// `reservoir_id` triggers, in the order of `rules`. No rule is left out
    /// because of what an earlier one did.
    pub fn triggered_rules(rules: &Vec<AlertRule>, reservoir_id: i32, value: Double) -> (due: Vec<
        AlertRule,
    >)
        ensures
            due@ == triggered(rules@, reservoir_id, value),
    {
        let mut due: Vec<AlertRule> = Vec::new();
        let mut i: usize = 0;
        while i < rules.len()
            invariant
                i <= rules@.len(),
                due@ == triggered(rules@.take(i as int), reservoir_id, value),
            decreases rules@.len() - i,
        {
            proof {
                assert(rules@.take(i + 1).drop_last() == rules@.take(i as int));
            }
            let rule: AlertRule = rules[i];
            if rule.reservoir_id == reservoir_id && rule.is_active && evaluate(
                rule.condition_type,
                rule.threshold,
                value,
            ) {
                due.push(rule);
            }
            i = i + 1;
        }
        proof {
            assert(rules@.take(i as int) == rules@);
        }
        due
    }

    /// What is recorded of a delivery: `Sent` where the dispatcher
    /// succeeded, `Failed` where it returned an error.
    pub fn delivery_status(outcome: &Result<(), DispatchError>) -> (status: AlertStatus)
        ensures
            status == status_of(*outcome),
    {
        match outcome {
            Ok(_) => AlertStatus::Sent,
            Err(_) => AlertStatus::Failed,
        }
    }

    /// Appends to the history what came of notifying `sent_to` for the rule
    /// `rule_id`: an entry that is `Sent` where `outcome` is a success and
    /// `Failed` where it is an error. The error itself goes no further.
    ///
    /// Fails with `Database`, and changes nothing, once every alert id has
    /// been given out.
    pub fn record_attempt(
        db: &mut Store,
        rule_id: i32,
        sent_to: &str,
        outcome: &Result<(), DispatchError>,
        triggered_at: i64,
    ) -> (r: Result<Alert, AppError>)
        requires
            old(db)@.valid(),
        ensures
            final(db)@.valid(),
            old(db)@.last_alert_id < i32::MAX ==> {
                let entry = AlertView {
                    id: (old(db)@.last_alert_id + 1) as i32,
                    rule_id,
                    triggered_at,
                    sent_to: sent_to@,
                    status: status_of(*outcome),
                };
                &&& r matches Ok(alert)
                &&& alert@ == entry
                &&& final(db)@ == (StoreView {
                    alerts: old(db)@.alerts.push(entry),
                    last_alert_id: entry.id,
                    ..old(db)@
                })
            },
            old(db)@.last_alert_id == i32::MAX ==> {
                &&& r matches Err(e)
                &&& e.is_database("no alert id is left"@)
                &&& final(db)@ == old(db)@
            },
    {
        db.append_alert(rule_id, sent_to, Alerts::delivery_status(outcome), triggered_at)
    }

    /// The id of the user who owns the reservoir `reservoir_id`.
    fn owner_of_reservoir(db: &Store, reservoir_id: i32) -> (owner: Option<i32>)
        requires
            db@.valid(),
        ensures
            owner == db@.owner_of(reservoir_id),
    {
        match db.reservoir(reservoir_id) {
            Some(reservoir) => Some(reservoir.user_id),
            None => None,
        }
    }

    /// The rule `rule_id` and the id of the user who owns its reservoir.
    fn rule_with_owner(db: &Store, rule_id: i32) -> (found: Option<(AlertRule, i32)>)
        requires
            db@.valid(),
        ensures
            found is Some <==> rule_owner(db@, rule_id) is Some,
            found matches Some(pair) ==> rule_by_id(db@.rules, rule_id) == Some(pair.0)
                && rule_owner(db@, rule_id) == Some(pair.1),
    {
        match db.rule(rule_id) {
            Some(rule) => match Alerts::owner_of_reservoir(db, rule.reservoir_id) {
                Some(owner) => Some((rule, owner)),
                None => None,
            },
            None => None,
        }
    }

    /// The rules of the reservoir `reservoir_id`, active or not, for the
    /// user who owns it.
    ///
    /// Fails with `NotFound` where the reservoir is not known, and with
    /// `PermissionDenied` where `user_id` is not its owner.
    pub fn find_rules_by_reservoir(db: &Store, reservoir_id: i32, user_id: i32) -> (r: Result<
        Vec<AlertRule>,
        AppError,
    >)
        requires
            db@.valid(),
        ensures
            match db@.owner_of(reservoir_id) {
                None => r matches Err(e) && e.is_not_found("Reservoir not found"@),
                Some(owner) => if owner == user_id {
                    r matches Ok(rules) && rules@ == rules_of(db@.rules, reservoir_id)
                } else {
                    r == Err::<Vec<AlertRule>, AppError>(AppError::PermissionDenied)
                },
            },
    {
        let owner = Alerts::owner_of_reservoir(db, reservoir_id);
        match Alerts::authorize(owner, user_id, "Reservoir not found") {
            Err(e) => Err(e),
            Ok(_) => Ok(db.rules_of_reservoir(reservoir_id)),
        }
    }

    /// Creates an active rule on the reservoir `reservoir_id` for the user
    /// who owns it.
    ///
    /// Fails with `NotFound` where the reservoir is not known, with
    /// `PermissionDenied` where `user_id` is not its owner, with `Invalid`
    /// where the threshold is a NaN or an infinity, and with `Database` once
    /// every rule id has been given out. A failure changes nothing.
    pub fn create_rule(
        db: &mut Store,
        reservoir_id: i32,
        user_id: i32,
        condition: AlertConditionType,
        threshold: Double,
    ) -> (r: Result<AlertRule, AppError>)
        requires
            old(db)@.valid(),
        ensures
            final(db)@.valid(),
            r is Err ==> final(db)@ == old(db)@,
            match old(db)@.owner_of(reservoir_id) {
                None => r matches Err(e) && e.is_not_found("Reservoir not found"@),
                Some(owner) => if owner != user_id {
                    r == Err::<AlertRule, AppError>(AppError::PermissionDenied)
                } else if !threshold.finite() {
                    r matches Err(e) && e.is_invalid(threshold_text())
                } else if old(db)@.last_rule_id == i32::MAX {
                    r matches Err(e) && e.is_database("no alert rule id is left"@)
                } else {
                    let rule = AlertRule {
                        id: (old(db)@.last_rule_id + 1) as i32,
                        reservoir_id,
                        condition_type: condition,
                        threshold,
                        is_active: true,
                    };
                    &&& r == Ok::<AlertRule, AppError>(rule)
                    &&& final(db)@ == (StoreView {
                        rules: old(db)@.rules.push(rule),
                        last_rule_id: rule.id,
                        ..old(db)@
                    })
                },
            },
    {
        let owner = Alerts::owner_of_reservoir(db, reservoir_id);
        match Alerts::authorize(owner, user_id, "Reservoir not found") {
            Err(e) => Err(e),
            Ok(_) => db.insert_rule(reservoir_id, condition, threshold),
        }
    }

    /// Changes the rule `rule_id` for the user who owns its reservoir. Only
    /// the given fields change; the history is left as it is.
    ///
    /// Fails with `NotFound` where the rule or its reservoir is missing, with
    /// `PermissionDenied` where `user_id` is not the owner, and with
    /// `Invalid` where a threshold is given that is a NaN or an infinity. A
    /// failure changes nothing.
    pub fn update_rule(
        db: &mut Store,
        rule_id: i32,
        user_id: i32,
        condition: Option<AlertConditionType>,
        threshold: Option<Double>,
        is_active: Option<bool>,
    ) -> (r: Result<AlertRule, AppError>)
        requires
            old(db)@.valid(),
        ensures
            final(db)@.valid(),
            r is Err ==> final(db)@ == old(db)@,
            match rule_owner(old(db)@, rule_id) {
                None => r matches Err(e) && e.is_not_found("Rule not found"@),
                Some(owner) => if owner != user_id {
                    r == Err::<AlertRule, AppError>(AppError::PermissionDenied)
                } else if threshold matches Some(t) && !t.finite() {
                    r matches Err(e) && e.is_invalid(threshold_text())
                } else {
                    let at = rule_index(old(db)@.rules, rule_id);
                    let rule = updated(old(db)@.rules[at], condition, threshold, is_active);
                    &&& r == Ok::<AlertRule, AppError>(rule)
                    &&& final(db)@ == (StoreView {
                        rules: old(db)@.rules.update(at, rule),
                        ..old(db)@
                    })
                },
            },
    {
        let (rule, owner) = match Alerts::rule_with_owner(db, rule_id) {
            Some(pair) => (pair.0, Some(pair.1)),
            None => {
                return Err(AppError::NotFound { msg: String::from_str("Rule not found") });
            },
        };
        match Alerts::authorize(owner, user_id, "Rule not found") {
            Err(e) => Err(e),
            Ok(_) => {
                let changed = Alerts::apply_update(rule, condition, threshold, is_active);
                if db.replace_rule(changed) {
                    Ok(changed)
                } else {
                    // The rule is there, so it is the new threshold that the
                    // store turned away.
                    Err(Store::not_finite())
                }
            },
        }
    }

    /// Deletes the rule `rule_id` for the user who owns its reservoir. The
    /// history keeps what the rule had triggered.
    ///
    /// Fails with `NotFound` where the rule or its reservoir is missing, and
    /// with `PermissionDenied` where `user_id` is not the owner. A failure
    /// changes nothing.
    pub fn delete_rule(db: &mut Store, rule_id: i32, user_id: i32) -> (r: Result<(), AppError>)
        requires
            old(db)@.valid(),
        ensures
            final(db)@.valid(),
            r is Err ==> final(db)@ == old(db)@,
            match rule_owner(old(db)@, rule_id) {
                None => r matches Err(e) && e.is_not_found("Rule not found"@),
                Some(owner) => if owner != user_id {
                    r == Err::<(), AppError>(AppError::PermissionDenied)
                } else {
                    &&& r is Ok
                    &&& final(db)@ == (StoreView {
                        rules: old(db)@.rules.remove(rule_index(old(db)@.rules, rule_id)),
                        ..old(db)@
                    })
                },
            },
    {
        let owner = match Alerts::rule_with_owner(db, rule_id) {
            Some(pair) => Some(pair.1),
            None => {
                return Err(AppError::NotFound { msg: String::from_str("Rule not found") });
            },
        };
        match Alerts::authorize(owner, user_id, "Rule not found") {
            Err(e) => Err(e),
            Ok(_) => {
                let removed = db.remove_rule(rule_id);
                Ok(())
            },
        }
    }
}

/// The reservoir `reservoir_id` and the user who owns it; `None` where
/// either is not known.
pub open spec fn recipient(s: StoreView, reservoir_id: i32) -> Option<(Reservoir, User)> {
    if has_reservoir(s.reservoirs, reservoir_id) {
        let reservoir = s.reservoirs[reservoir_index(s.reservoirs, reservoir_id)];
        if has_user(s.users, reservoir.user_id) {
            Some((reservoir, s.users[user_index(s.users, reservoir.user_id)]))
        } else {
            None
        }
    } else {
        None
    }
}

/// The address that the alerts of the reservoir `reservoir_id` go to: that of
/// its owner.
pub open spec fn recipient_address(s: StoreView, reservoir_id: i32) -> Seq<char> {
    match recipient(s, reservoir_id) {
        Some(pair) => pair.1.email@,
        None => Seq::empty(),
    }
}

/// The rules for which a `value` measured in the reservoir `reservoir_id`
/// calls for a notification: those that it triggers, or none where the
/// reservoir or its owner is not known.
pub open spec fn due_rules(s: StoreView, reservoir_id: i32, value: Double) -> Seq<AlertRule> {
    if recipient(s, reservoir_id) is Some {
        triggered(s.rules, reservoir_id, value)
    } else {
        Seq::empty()
    }
}

/// The name of the reservoir `reservoir_id`, as its alerts give it.
pub open spec fn reservoir_name(s: StoreView, reservoir_id: i32) -> Seq<char> {
    match recipient(s, reservoir_id) {
        Some(pair) => pair.0.name@,
        None => Seq::empty(),
    }
}

/// A notification that a measurement calls for: what the dispatcher is
/// handed, and the rule on whose behalf.
#[derive(Clone, Debug, PartialEq, Eq)]
pub struct Notification {
    pub rule_id: i32,
    pub to: String,
    pub subject: String,
    pub notice: AlertNotice,
}

/// Whether `n` is what the rule `rule` has to say of a `value` measured in
/// the reservoir `reservoir_id`: it goes to the owner of the reservoir, under
/// the subject of every alert, and tells the reservoir's name, the value, and
/// the rule's condition and threshold.
pub open spec fn notifies(
    n: Notification,
    s: StoreView,
    reservoir_id: i32,
    value: Double,
    rule: AlertRule,
) -> bool {
    &&& n.rule_id == rule.id
    &&& n.to@ == recipient_address(s, reservoir_id)
    &&& n.subject@ == subject_spec()
    &&& n.notice.reservoir_name@ == reservoir_name(s, reservoir_id)
    &&& n.notice.value == value
    &&& n.notice.condition == rule.condition_type
    &&& n.notice.threshold == rule.threshold
}

/// What an evaluation that ran to its end has made of a store: reservoirs,
/// users and rules are as they were, and the history has grown by one entry
/// for each rule that was due, in their order, addressed to the owner of the
/// reservoir and marked `Sent` or `Failed`.
pub open spec fn evaluation_recorded(
    before: StoreView,
    after: StoreView,
    reservoir_id: i32,
    value: Double,
) -> bool {
    let due = due_rules(before, reservoir_id, value);
    let first = before.alerts.len() as int;
    &&& after.reservoirs == before.reservoirs
    &&& after.users == before.users
    &&& after.rules == before.rules
    &&& after.last_rule_id == before.last_rule_id
    &&& after.last_alert_id == before.last_alert_id + due.len()
    &&& after.alerts.len() == first + due.len()
    &&& after.alerts.take(first) == before.alerts
    &&& forall|k: int|
        0 <= k < due.len() ==> {
            let entry = #[trigger] after.alerts[first + k];
            &&& entry.id == before.last_alert_id + 1 + k
            &&& entry.rule_id == due[k].id
            &&& entry.sent_to == recipient_address(before, reservoir_id)
            &&& (entry.status == AlertStatus::Sent || entry.status == AlertStatus::Failed)
        }
}

/// Whether the history of `after` holds an entry for the rule `rule_id` that
/// the history of `before` did not hold yet.
pub open spec fn has_new_entry(before: StoreView, after: StoreView, rule_id: i32) -> bool {
    exists|k: int|
        before.alerts.len() <= k < after.alerts.len() && (#[trigger] after.alerts[k]).rule_id
            == rule_id
}

/// How many of `wanted` new entries the history can still take.
pub open spec fn recordable(s: StoreView, wanted: nat) -> nat {
    let room = (i32::MAX - s.last_alert_id) as nat;
    if wanted <= room {
        wanted
    } else {
        room
    }
}

impl Alerts {
    /// The notifications that a `value` measured in the reservoir
    /// `reservoir_id` calls for: one for each rule that it triggers, in the
    /// order of their creation, and none where the reservoir or its owner is
    /// not known.
    pub fn pending_notifications(db: &Store, reservoir_id: i32, value: Double) -> (pending: Vec<
        Notification,
    >)
        requires
            db@.valid(),
        ensures
            pending@.len() == due_rules(db@, reservoir_id, value).len(),
            forall|k: int|
                0 <= k < pending@.len() ==> notifies(
                    #[trigger] pending@[k],
                    db@,
                    reservoir_id,
                    value,
                    due_rules(db@, reservoir_id, value)[k],
                ),
    {
        let mut pending: Vec<Notification> = Vec::new();
        let (to, name): (&String, &String) = match db.reservoir(reservoir_id) {
            None => {
                return pending;
            },
            Some(reservoir) => match db.user(reservoir.user_id) {
                None => {
                    return pending;
                },
                Some(user) => (&user.email, &reservoir.name),
            },
        };
        let due: Vec<AlertRule> = Alerts::triggered_rules(db.rules(), reservoir_id, value);
        let mut i: usize = 0;
        while i < due.len()
            invariant
                i <= due@.len(),
                due@ == due_rules(db@, reservoir_id, value),
                to@ == recipient_address(db@, reservoir_id),
                name@ == reservoir_name(db@, reservoir_id),
                pending@.len() == i,
                forall|k: int|
                    0 <= k < i ==> notifies(
                        #[trigger] pending@[k],
                        db@,
                        reservoir_id,
                        value,
                        due@[k],
                    ),
            decreases due@.len() - i,
        {
            let rule: AlertRule = due[i];
            pending.push(
                Notification {
                    rule_id: rule.id,
                    to: to.clone(),
                    subject: String::from_str(alert_subject()),
                    notice: AlertNotice {
                        reservoir_name: name.clone(),
                        value,
                        condition: rule.condition_type,
                        threshold: rule.threshold,
                    },
                },
            );
            i = i + 1;
        }
        pending
    }

    /// Evaluates the rules of the reservoir `reservoir_id` against a newly
    /// measured `value`. Each of the `pending_notifications`, in their order,
    /// is handed to `dispatcher`, and one entry is appended to the history
    /// for it: `Sent` where the dispatcher succeeded, `Failed` where it did
    /// not. A failed delivery is recorded and never returned, and the
    /// notifications after it go out all the same.
    ///
    /// Where the reservoir or its owner is not known, nothing is done.
    /// Nothing but the history changes. The one error is `Database`, when
    /// the history can take no further entry; what was recorded before stays.
    pub fn check_and_notify<D: Dispatcher>(
        db: &mut Store,
        dispatcher: &mut D,
        reservoir_id: i32,
        value: Double,
    ) -> (r: Result<(), AppError>)
        requires
            old(db)@.valid(),
        ensures
            final(db)@.valid(),
            final(db)@.reservoirs == old(db)@.reservoirs,
            final(db)@.users == old(db)@.users,
            final(db)@.rules == old(db)@.rules,
            final(db)@.last_rule_id == old(db)@.last_rule_id,
            ({
                let due = due_rules(old(db)@, reservoir_id, value);
                let n = recordable(old(db)@, due.len());
                let before = old(db)@.alerts.len() as int;
                &&& r is Ok <==> n == due.len()
                &&& r is Ok ==> evaluation_recorded(
                    old(db)@,
                    final(db)@,
                    reservoir_id,
                    value,
                )
                &&& r matches Err(e) ==> e.is_database("no alert id is left"@)
                &&& final(db)@.alerts.len() == before + n
                &&& final(db)@.alerts.take(before) == old(db)@.alerts
                &&& final(db)@.last_alert_id == old(db)@.last_alert_id + n
                &&& forall|k: int|
                    0 <= k < n ==> {
                        let entry = #[trigger] final(db)@.alerts[before + k];
                        &&& entry.id == old(db)@.last_alert_id + 1 + k
                        &&& entry.rule_id == due[k].id
                        &&& entry.sent_to == recipient_address(old(db)@, reservoir_id)
                        &&& (entry.status == AlertStatus::Sent || entry.status
                            == AlertStatus::Failed)
                    }
            }),
    {
        let pending: Vec<Notification> = Alerts::pending_notifications(db, reservoir_id, value);
        let ghost due = due_rules(old(db)@, reservoir_id, value);
        let ghost to = recipient_address(old(db)@, reservoir_id);
        let ghost before = old(db)@.alerts.len() as int;
        let mut i: usize = 0;
        while i < pending.len()
            invariant
                i <= pending@.len(),
                pending@.len() == due.len(),
                due == due_rules(old(db)@, reservoir_id, value),
                to == recipient_address(old(db)@, reservoir_id),
                forall|k: int|
                    0 <= k < pending@.len() ==> notifies(
                        #[trigger] pending@[k],
                        old(db)@,
                        reservoir_id,
                        value,
                        due[k],
                    ),
                before == old(db)@.alerts.len(),
                db@.valid(),
                db@.reservoirs == old(db)@.reservoirs,
                db@.users == old(db)@.users,
                db@.rules == old(db)@.rules,
                db@.last_rule_id == old(db)@.last_rule_id,
                db@.last_alert_id == old(db)@.last_alert_id + i,
                db@.alerts.len() == before + i,
                db@.alerts.take(before) == old(db)@.alerts,
                forall|k: int|
                    0 <= k < i ==> {
                        let entry = #[trigger] db@.alerts[before + k];
                        &&& entry.id == old(db)@.last_alert_id + 1 + k
                        &&& entry.rule_id == due[k].id
                        &&& entry.sent_to == to
                        &&& (entry.status == AlertStatus::Sent || entry.status
                            == AlertStatus::Failed)
                    },
            decreases pending@.len() - i,
        {
            let next: &Notification = &pending[i];
            let outcome = dispatcher.send(next.to.as_str(), next.subject.as_str(), &next.notice);
            match Alerts::record_attempt(
                db,
                next.rule_id,
                next.to.as_str(),
                &outcome,
                utc_now_micros(),
            ) {
                Err(e) => {
                    return Err(e);
                },
                Ok(_) => {},
            }
            i = i + 1;
        }
        Ok(())
    }
}

/// Whether `a` comes before `b` in a history: it was triggered later, or at
/// the same instant and recorded later.
pub open spec fn newer(a: AlertView, b: AlertView) -> bool {
    a.triggered_at > b.triggered_at || (a.triggered_at == b.triggered_at && a.id > b.id)
}

/// Whether every entry of `h` is newer than those after it.
pub open spec fn newest_first(h: Seq<AlertView>) -> bool {
    forall|i: int, j: int| 0 <= i < j < h.len() ==> newer(#[trigger] h[i], #[trigger] h[j])
}

/// Whether the entry belongs to the history of `user_id`: its rule still
/// exists, on a reservoir that is known and that the user owns.
pub open spec fn concerns(s: StoreView, alert: AlertView, user_id: i32) -> bool {
    rule_owner(s, alert.rule_id) == Some(user_id)
}

/// Whether `h` is the alert history of `user_id`: the entries of the store
/// that belong to the user, each once, the newest first.
pub open spec fn is_history_of(s: StoreView, user_id: i32, h: Seq<AlertView>) -> bool {
    &&& newest_first(h)
    &&& forall|a: AlertView| #[trigger]
        h.contains(a) <==> s.alerts.contains(a) && concerns(s, a, user_id)
}

/// The alert history of `user_id`. There is exactly one, as
/// `lemma_history_is_unique` shows.
pub open spec fn history_of(s: StoreView, user_id: i32) -> Seq<AlertView> {
    choose|h: Seq<AlertView>| is_history_of(s, user_id, h)
}

/// Two histories of one user agree up to any place that both reach.
proof fn lemma_histories_agree(s: StoreView, user_id: i32, h1: Seq<AlertView>, h2: Seq<
    AlertView,
>, n: int)
    requires
        is_history_of(s, user_id, h1),
        is_history_of(s, user_id, h2),
        0 <= n <= h1.len(),
        n <= h2.len(),
    ensures
        forall|k: int| 0 <= k < n ==> h1[k] == h2[k],
    decreases n,
{
    if n > 0 {
        lemma_histories_agree(s, user_id, h1, h2, n - 1);
        let i = n - 1;
        let a = h1[i];
        let b = h2[i];
        assert(h1.contains(a));
        assert(h2.contains(b));
        assert(h2.contains(a));
        assert(h1.contains(b));
    }
}

/// A user has one alert history: the entries that belong to the user can
/// stand newest first in one way only.
pub proof fn lemma_history_is_unique(s: StoreView, user_id: i32, h1: Seq<AlertView>, h2: Seq<
    AlertView,
>)
    requires
        is_history_of(s, user_id, h1),
        is_history_of(s, user_id, h2),
    ensures
        h1 == h2,
{
    if h1.len() <= h2.len() {
        lemma_histories_agree(s, user_id, h1, h2, h1.len() as int);
        if h1.len() < h2.len() {
            let extra = h2[h1.len() as int];
            assert(h2.contains(extra));
            assert(h1.contains(extra));
        }
    } else {
        lemma_histories_agree(s, user_id, h1, h2, h2.len() as int);
        let extra = h1[h2.len() as int];
        assert(h1.contains(extra));
        assert(h2.contains(extra));
    }
}

/// At most `limit` entries of `h` after the first `offset`.
pub open spec fn page(h: Seq<AlertView>, offset: nat, limit: nat) -> Seq<AlertView> {
    let from = if offset >= h.len() {
        h.len()
    } else {
        offset
    };
    let to = if limit >= h.len() - from {
        h.len()
    } else {
        from + limit
    };
    h.subrange(from as int, to as int)
}

/// The entries of `v` as plain values.
pub open spec fn views(v: Seq<Alert>) -> Seq<AlertView> {
    Seq::new(v.len(), |i: int| v[i]@)
}

/// The entries that a query asks for where it names no limit.
pub const DEFAULT_HISTORY_LIMIT: u64 = 50;

impl Alerts {
    /// A copy of an entry of the history.
    fn copy_of(alert: &Alert) -> (copy: Alert)
        ensures
            copy@ == alert@,
    {
        Alert {
            id: alert.id,
            rule_id: alert.rule_id,
            triggered_at: alert.triggered_at,
            sent_to: alert.sent_to.clone(),
            status: alert.status,
        }
    }

    /// Whether `a` comes before `b` in a history.
    fn is_newer(a: &Alert, b: &Alert) -> (r: bool)
        ensures
            r == newer(a@, b@),
    {
        a.triggered_at > b.triggered_at || (a.triggered_at == b.triggered_at && a.id > b.id)
    }

    /// The alert history of `user_id`: the entries whose rule stands on a
    /// reservoir that the user owns, the newest first, and of these at most
    /// `params.limit` (50 where none is given) after the first
    /// `params.offset` (none where none is given). Always succeeds.
    pub fn find_history_by_user(db: &Store, user_id: i32, params: AlertHistoryQuery) -> (r: Result<
        Vec<Alert>,
        AppError,
    >)
        requires
            db@.valid(),
        ensures
            is_history_of(db@, user_id, history_of(db@, user_id)),
            r matches Ok(found) && views(found@) == page(
                history_of(db@, user_id),
                match params.offset {
                    Some(o) => o as nat,
                    None => 0,
                },
                match params.limit {
                    Some(l) => l as nat,
                    None => DEFAULT_HISTORY_LIMIT as nat,
                },
            ),
    {
        let all: &Vec<Alert> = db.alerts();
        let mut sorted: Vec<Alert> = Vec::new();
        let mut i: usize = 0;
        while i < all.len()
            invariant
                i <= all@.len(),
                db@.valid(),
                all@.len() == db@.alerts.len(),
                forall|k: int| 0 <= k < all@.len() ==> (#[trigger] all@[k])@ == db@.alerts[k],
                newest_first(views(sorted@)),
                forall|a: AlertView| #[trigger]
                    views(sorted@).contains(a) <==> (exists|k: int|
                        0 <= k < i && #[trigger] db@.alerts[k] == a) && concerns(db@, a, user_id),
            decreases all@.len() - i,
        {
            let alert: &Alert = &all[i];
            let owner: Option<(AlertRule, i32)> = Alerts::rule_with_owner(db, alert.rule_id);
            let belongs: bool = match owner {
                Some(pair) => pair.1 == user_id,
                None => false,
            };
            if belongs {
                let ghost earlier = views(sorted@);
                let mut p: usize = 0;
                while p < sorted.len() && Alerts::is_newer(&sorted[p], alert)
                    invariant
                        p <= sorted@.len(),
                        forall|q: int| 0 <= q < p ==> newer(#[trigger] sorted@[q]@, alert@),
                    decreases sorted@.len() - p,
                {
                    p = p + 1;
                }
                proof {
                    // The entries before the place `p` are newer than the
                    // new one, and the entry at `p` is not.
                    assert forall|q: int| 0 <= q < p implies newer(
                        #[trigger] earlier[q],
                        alert@,
                    ) by {}
                    if p < earlier.len() {
                        assert(earlier[p as int] == sorted@[p as int]@);
                    }
                }
                sorted.insert(p, Alerts::copy_of(alert));
                proof {
                    let later = views(sorted@);
                    let x = alert@;
                    assert(later =~= earlier.insert(p as int, x));
                    // Every entry so far was recorded before `x`.
                    assert forall|q: int| 0 <= q < earlier.len() implies (#[trigger] earlier[q]).id
                        < x.id by {
                        assert(earlier.contains(earlier[q]));
                    }
                    assert forall|a: int, b: int| 0 <= a < b < later.len() implies newer(
                        #[trigger] later[a],
                        #[trigger] later[b],
                    ) by {}
                    assert forall|a: AlertView| #[trigger]
                        later.contains(a) <==> (exists|k: int|
                            0 <= k < i + 1 && #[trigger] db@.alerts[k] == a) && concerns(
                            db@,
                            a,
                            user_id,
                        ) by {
                        if later.contains(a) {
                            let q = choose|q: int| 0 <= q < later.len() && later[q] == a;
                            if q != p {
                                assert(earlier.contains(a));
                            }
                        }
                        if (exists|k: int| 0 <= k < i + 1 && #[trigger] db@.alerts[k] == a)
                            && concerns(db@, a, user_id) {
                            let k = choose|k: int| 0 <= k < i + 1 && #[trigger] db@.alerts[k] == a;
                            if k < i {
                                assert(earlier.contains(a));
                                let q = choose|q: int| 0 <= q < earlier.len() && earlier[q] == a;
                                if q < p {
                                    assert(later[q] == a);
                                } else {
                                    assert(later[q + 1] == a);
                                }
                            } else {
                                assert(later[p as int] == a);
                            }
                        }
                    }
                }
            }
            i = i + 1;
        }
        let ghost h = views(sorted@);
        proof {
            assert forall|a: AlertView| #[trigger]
                h.contains(a) <==> db@.alerts.contains(a) && concerns(db@, a, user_id) by {}
        }
        let offset: u64 = match params.offset {
            Some(o) => o,
            None => 0,
        };
        let limit: u64 = match params.limit {
            Some(l) => l,
            None => DEFAULT_HISTORY_LIMIT,
        };
        let len: usize = sorted.len();
        let from: usize = if offset >= len as u64 {
            len
        } else {
            offset as usize
        };
        let to: usize = if limit >= (len - from) as u64 {
            len
        } else {
            from + limit as usize
        };
        let mut found: Vec<Alert> = Vec::new();
        let mut j: usize = from;
        while j < to
            invariant
                from <= j <= to <= sorted@.len(),
                views(found@) == h.subrange(from as int, j as int),
                h == views(sorted@),
            decreases to - j,
        {
            let ghost shorter = views(found@);
            found.push(Alerts::copy_of(&sorted[j]));
            proof {
                let longer = views(found@);
                assert forall|k: int| 0 <= k < longer.len() implies longer[k] == h.subrange(
                    from as int,
                    j + 1,
                )[k] by {
                    if k < shorter.len() {
                        assert(longer[k] == shorter[k]);
                    } else {
                        assert(longer[k] == h[j as int]);
                    }
                }
                assert(longer =~= h.subrange(from as int, j + 1));
            }
            j = j + 1;
        }
        proof {
            lemma_history_is_unique(db@, user_id, h, history_of(db@, user_id));
        }
        Ok(found)
    }
}

/// Where the value equals the threshold, the strict conditions do not hold
/// and the inclusive ones do; `Equals` holds, and `NotEquals` does not,
/// unless both are the same infinity.
pub proof fn lemma_boundary(threshold: Double, value: Double)
    requires
        !threshold.nan(),
        !value.nan(),
        value.scaled_value() == threshold.scaled_value(),
    ensures
        !evaluate_spec(AlertConditionType::GreaterThan, threshold, value),
        !evaluate_spec(AlertConditionType::LessThan, threshold, value),
        evaluate_spec(AlertConditionType::GreaterThanOrEqual, threshold, value),
        evaluate_spec(AlertConditionType::LessThanOrEqual, threshold, value),
        evaluate_spec(AlertConditionType::Equals, threshold, value) == value.finite(),
        !evaluate_spec(AlertConditionType::NotEquals, threshold, value),
{
    crate::double::lemma_magnitude_order(value, threshold);
    vstd::arithmetic::power2::lemma_pow2_strictly_increases(968, 1022);
    let zero = Double { bits: 0 };
    assert(zero.magnitude() == 0) by {
        assert(zero.significand() == 0);
    }
    crate::double::lemma_magnitude_order(value, zero);
    crate::double::lemma_magnitude_order(threshold, zero);
}

/// Of two numbers, exactly one of `GreaterThan` and `LessThanOrEqual` holds,
/// and exactly one of `LessThan` and `GreaterThanOrEqual`. Of two finite
/// numbers, exactly one of `Equals` and `NotEquals` holds.
pub proof fn lemma_conditions_complement(threshold: Double, value: Double)
    requires
        !threshold.nan(),
        !value.nan(),
    ensures
        evaluate_spec(AlertConditionType::GreaterThan, threshold, value) != evaluate_spec(
            AlertConditionType::LessThanOrEqual,
            threshold,
            value,
        ),
        evaluate_spec(AlertConditionType::LessThan, threshold, value) != evaluate_spec(
            AlertConditionType::GreaterThanOrEqual,
            threshold,
            value,
        ),
        threshold.finite() && value.finite() ==> evaluate_spec(
            AlertConditionType::Equals,
            threshold,
            value,
        ) != evaluate_spec(AlertConditionType::NotEquals, threshold, value),
{
}

/// With a NaN as the value or as the threshold, no condition holds.
pub proof fn lemma_nan_triggers_nothing(
    condition: AlertConditionType,
    threshold: Double,
    value: Double,
)
    requires
        threshold.nan() || value.nan(),
    ensures
        !evaluate_spec(condition, threshold, value),
{
}

/// Every triggered rule is one of the given rules, stands on the reservoir
/// that was measured, is active, and has its condition met.
pub proof fn lemma_triggered_rules_fire(rules: Seq<AlertRule>, reservoir_id: i32, value: Double)
    ensures
        forall|k: int|
            0 <= k < triggered(rules, reservoir_id, value).len() ==> {
                let rule = #[trigger] triggered(rules, reservoir_id, value)[k];
                &&& fires(rule, reservoir_id, value)
                &&& rules.contains(rule)
            },
    decreases rules.len(),
{
    if rules.len() > 0 {
        let shorter = rules.drop_last();
        lemma_triggered_rules_fire(shorter, reservoir_id, value);
        assert forall|k: int| 0 <= k < triggered(rules, reservoir_id, value).len() implies {
            let rule = #[trigger] triggered(rules, reservoir_id, value)[k];
            &&& fires(rule, reservoir_id, value)
            &&& rules.contains(rule)
        } by {
            let rule = triggered(rules, reservoir_id, value)[k];
            if k < triggered(shorter, reservoir_id, value).len() {
                assert(shorter.contains(rule));
            } else {
                assert(rule == rules.last());
            }
        }
    }
}

/// A rule that fires is triggered: no rule is passed over.
pub proof fn lemma_firing_rules_are_triggered(
    rules: Seq<AlertRule>,
    reservoir_id: i32,
    value: Double,
    i: int,
)
    requires
        0 <= i < rules.len(),
        fires(rules[i], reservoir_id, value),
    ensures
        triggered(rules, reservoir_id, value).contains(rules[i]),
    decreases rules.len(),
{
    let all = triggered(rules, reservoir_id, value);
    let shorter = rules.drop_last();
    if i == rules.len() - 1 {
        assert(all[all.len() - 1] == rules[i]);
    } else {
        lemma_firing_rules_are_triggered(shorter, reservoir_id, value, i);
        let earlier = triggered(shorter, reservoir_id, value);
        let k = choose|k: int| 0 <= k < earlier.len() && earlier[k] == rules[i];
        assert(all[k] == rules[i]);
    }
}

/// Once a rule has been made inactive, no measurement calls for a
/// notification on its behalf, whatever its condition and the value; and
/// making it inactive leaves the history as it was.
pub proof fn lemma_inactive_rule_is_never_due(
    s: StoreView,
    rule_id: i32,
    condition: Option<AlertConditionType>,
    threshold: Option<Double>,
    reservoir_id: i32,
    value: Double,
)
    requires
        s.valid(),
        has_rule(s.rules, rule_id),
        threshold matches Some(t) ==> t.finite(),
    ensures
        ({
            let at = rule_index(s.rules, rule_id);
            let after = StoreView {
                rules: s.rules.update(at, updated(s.rules[at], condition, threshold, Some(false))),
                ..s
            };
            &&& after.valid()
            &&& after.alerts == s.alerts
            &&& forall|k: int|
                0 <= k < due_rules(after, reservoir_id, value).len() ==> (#[trigger] due_rules(
                    after,
                    reservoir_id,
                    value,
                )[k]).id != rule_id
        }),
{
    let at = rule_index(s.rules, rule_id);
    let changed = updated(s.rules[at], condition, threshold, Some(false));
    let after = StoreView { rules: s.rules.update(at, changed), ..s };
    lemma_triggered_rules_fire(after.rules, reservoir_id, value);
    assert forall|k: int| 0 <= k < due_rules(after, reservoir_id, value).len() implies (
    #[trigger] due_rules(after, reservoir_id, value)[k]).id != rule_id by {
        let rule = triggered(after.rules, reservoir_id, value)[k];
        let i = choose|i: int| 0 <= i < after.rules.len() && after.rules[i] == rule;
        if rule.id == rule_id {
            lemma_rule_index(after.rules, i);
            lemma_rule_index(after.rules, at);
        }
    }
}

/// An evaluation that ran to its end has written an entry for a rule exactly
/// when the reservoir and its owner are known and the rule fires: it stands
/// on the reservoir that was measured, it is active, and its condition holds
/// of the value by the table of `evaluate_spec`. No other rule is written
/// down, and none that fires is passed over.
pub proof fn lemma_entry_exactly_where_rule_fires(
    before: StoreView,
    after: StoreView,
    reservoir_id: i32,
    value: Double,
    i: int,
)
    requires
        before.valid(),
        evaluation_recorded(before, after, reservoir_id, value),
        0 <= i < before.rules.len(),
    ensures
        has_new_entry(before, after, before.rules[i].id) <==> recipient(before, reservoir_id)
            is Some && fires(before.rules[i], reservoir_id, value),
{
    let rule = before.rules[i];
    let due = due_rules(before, reservoir_id, value);
    let first = before.alerts.len() as int;
    lemma_triggered_rules_fire(before.rules, reservoir_id, value);
    if recipient(before, reservoir_id) is Some && fires(rule, reservoir_id, value) {
        lemma_firing_rules_are_triggered(before.rules, reservoir_id, value, i);
        let k = choose|k: int| 0 <= k < due.len() && due[k] == rule;
        assert(after.alerts[first + k].rule_id == rule.id);
    }
    if has_new_entry(before, after, rule.id) {
        let j = choose|j: int|
            first <= j < after.alerts.len() && (#[trigger] after.alerts[j]).rule_id == rule.id;
        let k = j - first;
        assert(after.alerts[first + k].rule_id == due[k].id);
        assert(before.rules.contains(due[k]));
        let m = choose|m: int| 0 <= m < before.rules.len() && before.rules[m] == due[k];
        lemma_rule_index(before.rules, m);
        lemma_rule_index(before.rules, i);
    }
}

/// Where the value equals the threshold of an active rule of the reservoir,
/// an evaluation that ran to its end has written an entry for the rule if
/// its condition is `GreaterThanOrEqual`, `LessThanOrEqual` or `Equals`, and
/// none if it is `GreaterThan`, `LessThan` or `NotEquals`.
pub proof fn lemma_entry_at_the_boundary(
    before: StoreView,
    after: StoreView,
    reservoir_id: i32,
    value: Double,
    i: int,
)
    requires
        before.valid(),
        evaluation_recorded(before, after, reservoir_id, value),
        recipient(before, reservoir_id) is Some,
        0 <= i < before.rules.len(),
        before.rules[i].reservoir_id == reservoir_id,
        before.rules[i].is_active,
        !value.nan(),
        value.scaled_value() == before.rules[i].threshold.scaled_value(),
    ensures
        has_new_entry(before, after, before.rules[i].id) <==> (before.rules[i].condition_type
            == AlertConditionType::GreaterThanOrEqual || before.rules[i].condition_type
            == AlertConditionType::LessThanOrEqual || before.rules[i].condition_type
            == AlertConditionType::Equals),
{
    let threshold = before.rules[i].threshold;
    lemma_entry_exactly_where_rule_fires(before, after, reservoir_id, value, i);
    lemma_boundary(threshold, value);
    // The threshold of a stored rule is finite, and so is a value equal to it.
    crate::double::lemma_magnitude_order(value, threshold);
    let zero = Double { bits: 0 };
    assert(zero.magnitude() == 0) by {
        assert(zero.significand() == 0);
    }
    crate::double::lemma_magnitude_order(value, zero);
    crate::double::lemma_magnitude_order(threshold, zero);
}

/// Whether a rule is written down depends on the rule and the value alone:
/// of two evaluations of one value that ran to their ends, on two stores
/// that hold the same rule and know its reservoir and the owner, either both
/// have written an entry for the rule or neither has, whatever else the
/// stores hold and whatever the dispatcher answered.
pub proof fn lemma_same_rule_same_decision(
    before: StoreView,
    after: StoreView,
    other_before: StoreView,
    other_after: StoreView,
    reservoir_id: i32,
    value: Double,
    i: int,
    j: int,
)
    requires
        before.valid(),
        other_before.valid(),
        evaluation_recorded(before, after, reservoir_id, value),
        evaluation_recorded(other_before, other_after, reservoir_id, value),
        recipient(before, reservoir_id) is Some,
        recipient(other_before, reservoir_id) is Some,
        0 <= i < before.rules.len(),
        0 <= j < other_before.rules.len(),
        before.rules[i] == other_before.rules[j],
    ensures
        has_new_entry(before, after, before.rules[i].id) <==> has_new_entry(
            other_before,
            other_after,
            before.rules[i].id,
        ),
{
    lemma_entry_exactly_where_rule_fires(before, after, reservoir_id, value, i);
    lemma_entry_exactly_where_rule_fires(other_before, other_after, reservoir_id, value, j);
}

} // verus!
