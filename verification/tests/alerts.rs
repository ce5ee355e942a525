use smarttank::double::Double;
use smarttank::error::AppError;
use smarttank::models::alert::evaluate;
use smarttank::models::alert::Alerts;
use smarttank::models::alert::Notification;
use smarttank::models::entities::Alert;
use smarttank::models::entities::AlertConditionType;
use smarttank::models::entities::AlertRule;
use smarttank::models::entities::AlertStatus;
use smarttank::models::entities::Reservoir;
use smarttank::models::entities::User;
use smarttank::models::entities::UserRole;
use smarttank::models::store::Store;
use smarttank::services::notification::alert_subject;
use smarttank::services::notification::AlertNotice;
use smarttank::services::notification::DispatchError;
use smarttank::services::notification::Dispatcher;
use smarttank::services::notification::NotificationService;
use smarttank::views::alert::AlertHistoryQuery;

fn d(x: f64) -> Double {
    Double::from_bits(x.to_bits())
}

fn user(id: i32, email: &str) -> User {
    User {
        id,
        email: email.to_string(),
        hashed_password: "hash".to_string(),
        first_name: None,
        last_name: None,
        role: UserRole::User,
        is_banned: false,
        ban_reason: None,
        created_at: None,
    }
}

fn reservoir(id: i32, user_id: i32, name: &str) -> Reservoir {
    Reservoir {
        id,
        user_id,
        name: name.to_string(),
        description: None,
        capacity: d(1000.0),
        location: None,
    }
}

/// One owner (id 7) with the reservoir 1, and a stranger (id 8).
fn store() -> Store {
    let mut db = Store::new();
    db.put_user(user(7, "owner@example.com"));
    db.put_user(user(8, "stranger@example.com"));
    db.put_reservoir(reservoir(1, 7, "North tank"));
    db
}

fn all_history() -> AlertHistoryQuery {
    AlertHistoryQuery { limit: None, offset: None }
}

/// A dispatcher that records what it is handed and answers as scripted.
struct Recorder {
    fail: bool,
    sent: Vec<(String, String, String)>,
}

impl Recorder {
    fn new(fail: bool) -> Recorder {
        Recorder { fail, sent: Vec::new() }
    }
}

impl Dispatcher for Recorder {
    fn send(&mut self, to: &str, subject: &str, notice: &AlertNotice) -> Result<(), DispatchError> {
        let value = format!("{:.2}", f64::from_bits(notice.value.to_bits()));
        let threshold = format!("{:.2}", f64::from_bits(notice.threshold.to_bits()));
        self.sent.push((to.to_string(), subject.to_string(), notice.body(&value, &threshold)));
        if self.fail {
            Err(DispatchError { reason: "mail server down".to_string() })
        } else {
            Ok(())
        }
    }
}

/// A dispatcher that fails on every second message, beginning with the first.
struct Flaky {
    calls: usize,
}

impl Dispatcher for Flaky {
    fn send(&mut self, _to: &str, _subject: &str, _notice: &AlertNotice) -> Result<(), DispatchError> {
        self.calls += 1;
        if self.calls % 2 == 1 {
            Err(DispatchError { reason: "busy".to_string() })
        } else {
            Ok(())
        }
    }
}

#[test]
fn evaluate_follows_the_table() {
    let t = d(80.0);
    // (value, gt, lt, eq, ne, ge, le)
    let cases = [
        (85.0, true, false, false, true, true, false),
        (80.0, false, false, true, false, true, true),
        (75.0, false, true, false, true, false, true),
        (-80.0, false, true, false, true, false, true),
    ];
    for (v, gt, lt, eq, ne, ge, le) in cases {
        assert_eq!(evaluate(AlertConditionType::GreaterThan, t, d(v)), gt, "gt {}", v);
        assert_eq!(evaluate(AlertConditionType::LessThan, t, d(v)), lt, "lt {}", v);
        assert_eq!(evaluate(AlertConditionType::Equals, t, d(v)), eq, "eq {}", v);
        assert_eq!(evaluate(AlertConditionType::NotEquals, t, d(v)), ne, "ne {}", v);
        assert_eq!(evaluate(AlertConditionType::GreaterThanOrEqual, t, d(v)), ge, "ge {}", v);
        assert_eq!(evaluate(AlertConditionType::LessThanOrEqual, t, d(v)), le, "le {}", v);
    }
}

#[test]
fn evaluate_agrees_with_native_comparison() {
    let values = [
        0.0, -0.0, 1.0, -1.0, 50.0, 50.0 + 1e-12, 50.5, 80.0, 85.0, 1e-17, -1e-17, 2.2e-16,
        f64::EPSILON, f64::MAX, f64::MIN, f64::INFINITY, f64::NEG_INFINITY, f64::NAN,
    ];
    for &t in values.iter() {
        for &v in values.iter() {
            assert_eq!(evaluate(AlertConditionType::GreaterThan, d(t), d(v)), v > t);
            assert_eq!(evaluate(AlertConditionType::LessThan, d(t), d(v)), v < t);
            assert_eq!(evaluate(AlertConditionType::Equals, d(t), d(v)), (v - t).abs() < f64::EPSILON);
            assert_eq!(evaluate(AlertConditionType::NotEquals, d(t), d(v)), (v - t).abs() >= f64::EPSILON);
            assert_eq!(evaluate(AlertConditionType::GreaterThanOrEqual, d(t), d(v)), v >= t);
            assert_eq!(evaluate(AlertConditionType::LessThanOrEqual, d(t), d(v)), v <= t);
        }
    }
}

#[test]
fn evaluate_gives_the_same_answer_again() {
    for c in [AlertConditionType::GreaterThan, AlertConditionType::LessThan, AlertConditionType::Equals, AlertConditionType::NotEquals, AlertConditionType::GreaterThanOrEqual, AlertConditionType::LessThanOrEqual] {
        let first = evaluate(c, d(80.0), d(85.0));
        for _ in 0..10 {
            assert_eq!(evaluate(c, d(80.0), d(85.0)), first);
        }
    }
}

#[test]
fn negative_thresholds_are_legal() {
    assert!(evaluate(AlertConditionType::GreaterThan, d(-5.0), d(-4.0)));
    assert!(!evaluate(AlertConditionType::GreaterThan, d(-5.0), d(-6.0)));
    assert!(evaluate(AlertConditionType::LessThanOrEqual, d(-5.0), d(-5.0)));
}

#[test]
fn a_value_above_the_threshold_is_sent_once() {
    let mut db = store();
    let rule = Alerts::create_rule(&mut db, 1, 7, AlertConditionType::GreaterThan, d(80.0)).unwrap();
    assert_eq!(
        rule,
        AlertRule {
            id: 1,
            reservoir_id: 1,
            condition_type: AlertConditionType::GreaterThan,
            threshold: d(80.0),
            is_active: true,
        }
    );
    let mut mail = Recorder::new(false);
    assert_eq!(Alerts::check_and_notify(&mut db, &mut mail, 1, d(85.0)), Ok(()));
    let history = Alerts::find_history_by_user(&db, 7, all_history()).unwrap();
    assert_eq!(history.len(), 1);
    assert_eq!(history[0].id, 1);
    assert_eq!(history[0].rule_id, rule.id);
    assert_eq!(history[0].status, AlertStatus::Sent);
    assert_eq!(history[0].sent_to, "owner@example.com");
    assert_eq!(
        mail.sent,
        vec![(
            "owner@example.com".to_string(),
            "SmartTank Alert Triggered".to_string(),
            "Alert for North tank: Value 85.00 is GreaterThan threshold 80.00".to_string(),
        )]
    );
}

#[test]
fn the_stand_in_mail_service_always_delivers() {
    let mut db = store();
    Alerts::create_rule(&mut db, 1, 7, AlertConditionType::GreaterThan, d(80.0)).unwrap();
    let mut mail = NotificationService;
    assert_eq!(Alerts::check_and_notify(&mut db, &mut mail, 1, d(85.0)), Ok(()));
    assert_eq!(db.alerts().len(), 1);
    assert_eq!(db.alerts()[0].status, AlertStatus::Sent);
    assert_eq!(NotificationService::send_email("a@b.c", "s", "b"), Ok(()));
}

#[test]
fn a_value_at_the_threshold_does_not_trigger_a_strict_rule() {
    let mut db = store();
    Alerts::create_rule(&mut db, 1, 7, AlertConditionType::GreaterThan, d(80.0)).unwrap();
    let mut mail = Recorder::new(false);
    assert_eq!(Alerts::check_and_notify(&mut db, &mut mail, 1, d(80.0)), Ok(()));
    assert!(Alerts::find_history_by_user(&db, 7, all_history()).unwrap().is_empty());
    assert!(db.alerts().is_empty());
    assert!(mail.sent.is_empty());
}

#[test]
fn equals_is_within_machine_epsilon() {
    let mut db = store();
    Alerts::create_rule(&mut db, 1, 7, AlertConditionType::Equals, d(50.0)).unwrap();
    let mut mail = Recorder::new(false);
    // Half a unit away is far.
    Alerts::check_and_notify(&mut db, &mut mail, 1, d(50.5)).unwrap();
    assert!(db.alerts().is_empty());
    // At 50 the doubles lie 2^-47 apart, more than epsilon: the next double
    // after 50 is already not equal, and so is 50 + 1e-12.
    assert!((50.0f64 + 1e-12 - 50.0).abs() >= f64::EPSILON);
    Alerts::check_and_notify(&mut db, &mut mail, 1, d(50.0 + 1e-12)).unwrap();
    Alerts::check_and_notify(&mut db, &mut mail, 1, d(f64::from_bits(50f64.to_bits() + 1))).unwrap();
    assert!(db.alerts().is_empty());
    // The threshold itself triggers.
    Alerts::check_and_notify(&mut db, &mut mail, 1, d(50.0)).unwrap();
    assert_eq!(db.alerts().len(), 1);
    // Near zero there are doubles within epsilon of each other.
    assert!(evaluate(AlertConditionType::Equals, d(0.0), d(1e-17)));
    assert!(evaluate(AlertConditionType::Equals, d(1e-16), d(2e-16)));
    assert!(!evaluate(AlertConditionType::Equals, d(0.0), d(f64::EPSILON)));
    assert!(evaluate(AlertConditionType::NotEquals, d(0.0), d(f64::EPSILON)));
}

#[test]
fn only_the_triggered_rule_is_recorded() {
    let mut db = store();
    let high = Alerts::create_rule(&mut db, 1, 7, AlertConditionType::GreaterThan, d(80.0)).unwrap();
    let low = Alerts::create_rule(&mut db, 1, 7, AlertConditionType::LessThan, d(10.0)).unwrap();
    assert_eq!((high.id, low.id), (1, 2));
    let mut mail = Recorder::new(false);
    Alerts::check_and_notify(&mut db, &mut mail, 1, d(85.0)).unwrap();
    assert_eq!(db.alerts().len(), 1);
    assert_eq!(db.alerts()[0].rule_id, high.id);
    Alerts::check_and_notify(&mut db, &mut mail, 1, d(5.0)).unwrap();
    assert_eq!(db.alerts().len(), 2);
    assert_eq!(db.alerts()[1].rule_id, low.id);
    assert_eq!(db.alerts()[1].id, 2);
}

#[test]
fn a_failed_delivery_is_recorded_and_not_returned() {
    let mut db = store();
    let rule = Alerts::create_rule(&mut db, 1, 7, AlertConditionType::GreaterThan, d(80.0)).unwrap();
    let mut mail = Recorder::new(true);
    assert_eq!(Alerts::check_and_notify(&mut db, &mut mail, 1, d(85.0)), Ok(()));
    let history = Alerts::find_history_by_user(&db, 7, all_history()).unwrap();
    assert_eq!(history.len(), 1);
    assert_eq!(history[0].status, AlertStatus::Failed);
    assert_eq!(history[0].rule_id, rule.id);
    assert_eq!(mail.sent.len(), 1);
    assert_eq!(Alerts::delivery_status(&Ok(())), AlertStatus::Sent);
    assert_eq!(
        Alerts::delivery_status(&Err(DispatchError { reason: "x".to_string() })),
        AlertStatus::Failed
    );
}

#[test]
fn a_failure_does_not_stop_the_rules_after_it() {
    let mut db = store();
    for t in [10.0, 20.0, 30.0, 90.0] {
        Alerts::create_rule(&mut db, 1, 7, AlertConditionType::GreaterThan, d(t)).unwrap();
    }
    let mut mail = Flaky { calls: 0 };
    assert_eq!(Alerts::check_and_notify(&mut db, &mut mail, 1, d(50.0)), Ok(()));
    let recorded: Vec<(i32, AlertStatus)> =
        db.alerts().iter().map(|a| (a.rule_id, a.status)).collect();
    assert_eq!(
        recorded,
        vec![(1, AlertStatus::Failed), (2, AlertStatus::Sent), (3, AlertStatus::Failed)]
    );
    assert_eq!(mail.calls, 3);
}

#[test]
fn an_inactive_rule_is_not_evaluated_and_keeps_its_history() {
    let mut db = store();
    let rule = Alerts::create_rule(&mut db, 1, 7, AlertConditionType::GreaterThan, d(80.0)).unwrap();
    let mut mail = Recorder::new(false);
    Alerts::check_and_notify(&mut db, &mut mail, 1, d(85.0)).unwrap();
    let off = Alerts::update_rule(&mut db, rule.id, 7, None, None, Some(false)).unwrap();
    assert!(!off.is_active);
    assert_eq!(off.threshold, d(80.0));
    assert_eq!(off.condition_type, AlertConditionType::GreaterThan);
    Alerts::check_and_notify(&mut db, &mut mail, 1, d(99.0)).unwrap();
    assert_eq!(db.alerts().len(), 1);
    assert_eq!(Alerts::find_history_by_user(&db, 7, all_history()).unwrap().len(), 1);
    let on = Alerts::update_rule(&mut db, rule.id, 7, None, None, Some(true)).unwrap();
    assert!(on.is_active);
    Alerts::check_and_notify(&mut db, &mut mail, 1, d(99.0)).unwrap();
    assert_eq!(db.alerts().len(), 2);
}

#[test]
fn a_measurement_of_an_unknown_reservoir_does_nothing() {
    let mut db = store();
    Alerts::create_rule(&mut db, 1, 7, AlertConditionType::GreaterThan, d(80.0)).unwrap();
    let mut mail = Recorder::new(false);
    assert_eq!(Alerts::check_and_notify(&mut db, &mut mail, 2, d(85.0)), Ok(()));
    assert!(db.alerts().is_empty());
    // A reservoir whose owner is not known.
    db.put_reservoir(reservoir(3, 99, "Orphan"));
    assert_eq!(
        Alerts::create_rule(&mut db, 3, 99, AlertConditionType::GreaterThan, d(1.0)).map(|r| r.id),
        Ok(2)
    );
    assert_eq!(Alerts::check_and_notify(&mut db, &mut mail, 3, d(85.0)), Ok(()));
    assert!(db.alerts().is_empty());
    assert!(mail.sent.is_empty());
}

#[test]
fn rules_of_other_reservoirs_are_not_evaluated() {
    let mut db = store();
    db.put_reservoir(reservoir(2, 8, "South tank"));
    Alerts::create_rule(&mut db, 1, 7, AlertConditionType::GreaterThan, d(80.0)).unwrap();
    let other = Alerts::create_rule(&mut db, 2, 8, AlertConditionType::GreaterThan, d(80.0)).unwrap();
    let mut mail = Recorder::new(false);
    Alerts::check_and_notify(&mut db, &mut mail, 2, d(85.0)).unwrap();
    assert_eq!(db.alerts().len(), 1);
    assert_eq!(db.alerts()[0].rule_id, other.id);
    assert_eq!(db.alerts()[0].sent_to, "stranger@example.com");
    assert!(Alerts::find_history_by_user(&db, 7, all_history()).unwrap().is_empty());
    assert_eq!(Alerts::find_history_by_user(&db, 8, all_history()).unwrap().len(), 1);
}

#[test]
fn a_stranger_is_denied_every_rule_operation() {
    let mut db = store();
    let rule = Alerts::create_rule(&mut db, 1, 7, AlertConditionType::GreaterThan, d(80.0)).unwrap();
    assert_eq!(Alerts::find_rules_by_reservoir(&db, 1, 8), Err(AppError::PermissionDenied));
    assert_eq!(
        Alerts::create_rule(&mut db, 1, 8, AlertConditionType::LessThan, d(1.0)),
        Err(AppError::PermissionDenied)
    );
    assert_eq!(
        Alerts::update_rule(&mut db, rule.id, 8, Some(AlertConditionType::LessThan), Some(d(1.0)), Some(false)),
        Err(AppError::PermissionDenied)
    );
    assert_eq!(Alerts::delete_rule(&mut db, rule.id, 8), Err(AppError::PermissionDenied));
    // Nothing was changed by any of them.
    assert_eq!(Alerts::find_rules_by_reservoir(&db, 1, 7), Ok(vec![rule]));
    assert_eq!(Alerts::authorize(Some(7), 8, "x"), Err(AppError::PermissionDenied));
    assert_eq!(Alerts::authorize(Some(7), 7, "x"), Ok(()));
    assert_eq!(Alerts::authorize(None, 7, "Gone"), Err(AppError::NotFound { msg: "Gone".to_string() }));
}

#[test]
fn missing_records_are_not_found() {
    let mut db = store();
    let missing_reservoir = Err(AppError::NotFound { msg: "Reservoir not found".to_string() });
    assert_eq!(Alerts::find_rules_by_reservoir(&db, 5, 7), missing_reservoir);
    assert_eq!(
        Alerts::create_rule(&mut db, 5, 7, AlertConditionType::Equals, d(1.0)),
        Err(AppError::NotFound { msg: "Reservoir not found".to_string() })
    );
    assert_eq!(
        Alerts::update_rule(&mut db, 1, 7, None, None, None),
        Err(AppError::NotFound { msg: "Rule not found".to_string() })
    );
    assert_eq!(
        Alerts::delete_rule(&mut db, 1, 7),
        Err(AppError::NotFound { msg: "Rule not found".to_string() })
    );
}

#[test]
fn an_update_changes_only_the_given_fields() {
    let mut db = store();
    let rule = Alerts::create_rule(&mut db, 1, 7, AlertConditionType::GreaterThan, d(80.0)).unwrap();
    let same = Alerts::update_rule(&mut db, rule.id, 7, None, None, None).unwrap();
    assert_eq!(same, rule);
    let changed =
        Alerts::update_rule(&mut db, rule.id, 7, Some(AlertConditionType::NotEquals), None, None).unwrap();
    assert_eq!(changed, AlertRule { condition_type: AlertConditionType::NotEquals, ..rule });
    let changed = Alerts::update_rule(&mut db, rule.id, 7, None, Some(d(-3.5)), None).unwrap();
    assert_eq!(
        changed,
        AlertRule { condition_type: AlertConditionType::NotEquals, threshold: d(-3.5), ..rule }
    );
    assert_eq!(db.rule(rule.id), Some(changed));
    assert_eq!(
        Alerts::apply_update(rule, Some(AlertConditionType::Equals), Some(d(1.0)), Some(false)),
        AlertRule {
            id: rule.id,
            reservoir_id: 1,
            condition_type: AlertConditionType::Equals,
            threshold: d(1.0),
            is_active: false,
        }
    );
}

#[test]
fn deleting_a_rule_keeps_the_log_and_the_other_rules() {
    let mut db = store();
    let first = Alerts::create_rule(&mut db, 1, 7, AlertConditionType::GreaterThan, d(80.0)).unwrap();
    let second = Alerts::create_rule(&mut db, 1, 7, AlertConditionType::GreaterThan, d(70.0)).unwrap();
    let mut mail = Recorder::new(false);
    Alerts::check_and_notify(&mut db, &mut mail, 1, d(85.0)).unwrap();
    assert_eq!(db.alerts().len(), 2);
    assert_eq!(Alerts::delete_rule(&mut db, first.id, 7), Ok(()));
    assert_eq!(Alerts::find_rules_by_reservoir(&db, 1, 7), Ok(vec![second]));
    assert_eq!(db.rule(first.id), None);
    // The log is append-only; the user's history shows the entries whose rule is left.
    assert_eq!(db.alerts().len(), 2);
    let history = Alerts::find_history_by_user(&db, 7, all_history()).unwrap();
    assert_eq!(history.len(), 1);
    assert_eq!(history[0].rule_id, second.id);
    // A deleted rule's id is not given out again.
    let third = Alerts::create_rule(&mut db, 1, 7, AlertConditionType::LessThan, d(1.0)).unwrap();
    assert_eq!(third.id, 3);
    assert_eq!(Alerts::delete_rule(&mut db, first.id, 7), Err(AppError::NotFound { msg: "Rule not found".to_string() }));
}

#[test]
fn the_history_is_newest_first_and_paged() {
    let mut db = store();
    let rule = Alerts::create_rule(&mut db, 1, 7, AlertConditionType::GreaterThan, d(0.0)).unwrap();
    // Written out of order in time; two entries share an instant.
    for t in [30, 10, 50, 20, 50, 40] {
        db.append_alert(rule.id, "owner@example.com", AlertStatus::Sent, t).unwrap();
    }
    let ids = |page: AlertHistoryQuery| -> Vec<(i64, i32)> {
        Alerts::find_history_by_user(&db, 7, page)
            .unwrap()
            .iter()
            .map(|a| (a.triggered_at, a.id))
            .collect()
    };
    assert_eq!(ids(all_history()), vec![(50, 5), (50, 3), (40, 6), (30, 1), (20, 4), (10, 2)]);
    assert_eq!(
        ids(AlertHistoryQuery { limit: Some(2), offset: None }),
        vec![(50, 5), (50, 3)]
    );
    assert_eq!(
        ids(AlertHistoryQuery { limit: Some(2), offset: Some(3) }),
        vec![(30, 1), (20, 4)]
    );
    assert_eq!(ids(AlertHistoryQuery { limit: Some(10), offset: Some(5) }), vec![(10, 2)]);
    assert_eq!(ids(AlertHistoryQuery { limit: None, offset: Some(6) }), vec![]);
    assert_eq!(ids(AlertHistoryQuery { limit: None, offset: Some(u64::MAX) }), vec![]);
    assert_eq!(ids(AlertHistoryQuery { limit: Some(0), offset: None }), vec![]);
    assert_eq!(ids(AlertHistoryQuery { limit: Some(u64::MAX), offset: Some(4) }), vec![(20, 4), (10, 2)]);
}

#[test]
fn the_history_gives_fifty_entries_by_default() {
    let mut db = store();
    let rule = Alerts::create_rule(&mut db, 1, 7, AlertConditionType::GreaterThan, d(0.0)).unwrap();
    for t in 0..60 {
        db.append_alert(rule.id, "owner@example.com", AlertStatus::Failed, t).unwrap();
    }
    let page = Alerts::find_history_by_user(&db, 7, all_history()).unwrap();
    assert_eq!(page.len(), 50);
    assert_eq!(page[0].triggered_at, 59);
    assert_eq!(page[49].triggered_at, 10);
}

#[test]
fn triggered_rules_keep_the_order_of_creation() {
    let rule = |id: i32, reservoir_id: i32, c: AlertConditionType, t: f64, is_active: bool| AlertRule {
        id,
        reservoir_id,
        condition_type: c,
        threshold: d(t),
        is_active,
    };
    let rules = vec![
        rule(1, 1, AlertConditionType::GreaterThan, 10.0, true),
        rule(2, 2, AlertConditionType::GreaterThan, 10.0, true),
        rule(3, 1, AlertConditionType::LessThan, 10.0, true),
        rule(4, 1, AlertConditionType::GreaterThanOrEqual, 50.0, true),
        rule(5, 1, AlertConditionType::GreaterThan, 10.0, false),
        rule(6, 1, AlertConditionType::NotEquals, 49.0, true),
        rule(7, 1, AlertConditionType::LessThanOrEqual, 50.0, true),
    ];
    let due: Vec<i32> = Alerts::triggered_rules(&rules, 1, d(50.0)).iter().map(|r| r.id).collect();
    assert_eq!(due, vec![1, 4, 6, 7]);
    assert!(Alerts::triggered_rules(&rules, 3, d(50.0)).is_empty());
    assert!(Alerts::triggered_rules(&Vec::new(), 1, d(50.0)).is_empty());
}

#[test]
fn the_notice_reads_as_one_sentence() {
    let notice = AlertNotice {
        reservoir_name: "Main Water Tank".to_string(),
        value: d(450.5),
        condition: AlertConditionType::LessThanOrEqual,
        threshold: d(500.0),
    };
    assert_eq!(
        notice.body("450.50", "500.00"),
        "Alert for Main Water Tank: Value 450.50 is LessThanOrEqual threshold 500.00"
    );
    assert_eq!(alert_subject(), "SmartTank Alert Triggered");
    assert_eq!(AlertConditionType::GreaterThan.name(), "GreaterThan");
    assert_eq!(AlertConditionType::LessThan.name(), "LessThan");
    assert_eq!(AlertConditionType::Equals.name(), "Equals");
    assert_eq!(AlertConditionType::NotEquals.name(), "NotEquals");
    assert_eq!(AlertConditionType::GreaterThanOrEqual.name(), "GreaterThanOrEqual");
    assert_eq!(AlertConditionType::LessThanOrEqual.name(), "LessThanOrEqual");
}

#[test]
fn the_store_replaces_what_it_knew_under_an_id() {
    let mut db = Store::new();
    assert!(db.user(7).is_none());
    assert!(db.reservoir(1).is_none());
    db.put_user(user(7, "old@example.com"));
    db.put_user(user(8, "other@example.com"));
    db.put_user(user(7, "new@example.com"));
    assert_eq!(db.user(7).map(|u| u.email.clone()), Some("new@example.com".to_string()));
    assert_eq!(db.user(8).map(|u| u.email.clone()), Some("other@example.com".to_string()));
    db.put_reservoir(reservoir(1, 7, "A"));
    db.put_reservoir(reservoir(1, 8, "B"));
    assert_eq!(db.reservoir(1).map(|r| (r.user_id, r.name.clone())), Some((8, "B".to_string())));
    assert_eq!(db.rules().len(), 0);
    assert!(!db.replace_rule(AlertRule {
        id: 1,
        reservoir_id: 1,
        condition_type: AlertConditionType::Equals,
        threshold: d(0.0),
        is_active: true,
    }));
    assert!(!db.remove_rule(1));
    let made = db.insert_rule(1, AlertConditionType::Equals, d(0.0)).unwrap();
    assert_eq!(db.rules_of_reservoir(1), vec![made]);
    assert!(db.rules_of_reservoir(2).is_empty());
}

#[test]
fn a_measurement_calls_for_one_notification_for_each_triggered_rule() {
    let mut db = store();
    let high = Alerts::create_rule(&mut db, 1, 7, AlertConditionType::GreaterThan, d(80.0)).unwrap();
    Alerts::create_rule(&mut db, 1, 7, AlertConditionType::LessThan, d(10.0)).unwrap();
    let near = Alerts::create_rule(&mut db, 1, 7, AlertConditionType::GreaterThanOrEqual, d(85.0)).unwrap();
    let notification = |rule: &AlertRule| Notification {
        rule_id: rule.id,
        to: "owner@example.com".to_string(),
        subject: "SmartTank Alert Triggered".to_string(),
        notice: AlertNotice {
            reservoir_name: "North tank".to_string(),
            value: d(85.0),
            condition: rule.condition_type,
            threshold: rule.threshold,
        },
    };
    assert_eq!(
        Alerts::pending_notifications(&db, 1, d(85.0)),
        vec![notification(&high), notification(&near)]
    );
    assert!(Alerts::pending_notifications(&db, 1, d(50.0)).is_empty());
    assert!(Alerts::pending_notifications(&db, 2, d(85.0)).is_empty());
    // Asking what is pending writes nothing down.
    assert!(db.alerts().is_empty());
}

#[test]
fn an_attempt_is_recorded_as_it_ended() {
    let mut db = store();
    let sent = Alerts::record_attempt(&mut db, 3, "a@example.com", &Ok(()), 10).unwrap();
    assert_eq!(
        sent,
        Alert {
            id: 1,
            rule_id: 3,
            triggered_at: 10,
            sent_to: "a@example.com".to_string(),
            status: AlertStatus::Sent,
        }
    );
    let failed = Alerts::record_attempt(
        &mut db,
        4,
        "b@example.com",
        &Err(DispatchError { reason: "down".to_string() }),
        -5,
    )
    .unwrap();
    assert_eq!(
        failed,
        Alert {
            id: 2,
            rule_id: 4,
            triggered_at: -5,
            sent_to: "b@example.com".to_string(),
            status: AlertStatus::Failed,
        }
    );
    assert_eq!(db.alerts(), &vec![sent, failed]);
}

#[test]
fn the_store_takes_in_what_was_made_elsewhere_in_the_order_of_the_ids() {
    let rule = |id: i32| AlertRule {
        id,
        reservoir_id: 1,
        condition_type: AlertConditionType::GreaterThan,
        threshold: d(80.0),
        is_active: true,
    };
    let alert = |id: i32| Alert {
        id,
        rule_id: 5,
        triggered_at: 0,
        sent_to: "owner@example.com".to_string(),
        status: AlertStatus::Sent,
    };
    let mut db = store();
    assert!(!db.load_rule(rule(0)));
    assert!(!db.load_rule(rule(-3)));
    assert!(db.load_rule(rule(5)));
    assert!(!db.load_rule(rule(5)));
    assert!(!db.load_rule(rule(2)));
    assert!(db.load_rule(rule(9)));
    assert_eq!(db.rules(), &vec![rule(5), rule(9)]);
    assert_eq!(db.rule(9), Some(rule(9)));
    // The next rule made here comes after the latest id.
    assert_eq!(
        Alerts::create_rule(&mut db, 1, 7, AlertConditionType::Equals, d(0.0)).map(|r| r.id),
        Ok(10)
    );
    assert!(!db.load_alert(alert(0)));
    assert!(db.load_alert(alert(4)));
    assert!(!db.load_alert(alert(4)));
    assert!(db.load_alert(alert(7)));
    assert_eq!(db.alerts(), &vec![alert(4), alert(7)]);
    assert_eq!(db.append_alert(5, "x@example.com", AlertStatus::Failed, 1).map(|a| a.id), Ok(8));
    // Ids run out at the largest: nothing is made after it, and nothing changes.
    assert!(db.load_rule(rule(i32::MAX)));
    assert_eq!(
        db.insert_rule(1, AlertConditionType::Equals, d(0.0)),
        Err(AppError::Database { message: "no alert rule id is left".to_string() })
    );
    assert_eq!(
        Alerts::create_rule(&mut db, 1, 7, AlertConditionType::Equals, d(0.0)),
        Err(AppError::Database { message: "no alert rule id is left".to_string() })
    );
    assert_eq!(db.rules().len(), 4);
    assert!(db.load_alert(alert(i32::MAX)));
    assert_eq!(
        db.append_alert(5, "x@example.com", AlertStatus::Sent, 1),
        Err(AppError::Database { message: "no alert id is left".to_string() })
    );
    assert_eq!(db.alerts().len(), 4);
}

#[test]
fn a_full_history_stops_the_evaluation_with_a_database_error() {
    let mut db = store();
    for t in [10.0, 20.0, 30.0] {
        Alerts::create_rule(&mut db, 1, 7, AlertConditionType::GreaterThan, d(t)).unwrap();
    }
    assert!(db.load_alert(Alert {
        id: i32::MAX - 2,
        rule_id: 1,
        triggered_at: 0,
        sent_to: "owner@example.com".to_string(),
        status: AlertStatus::Sent,
    }));
    let mut mail = Recorder::new(false);
    assert_eq!(
        Alerts::check_and_notify(&mut db, &mut mail, 1, d(50.0)),
        Err(AppError::Database { message: "no alert id is left".to_string() })
    );
    // Two entries fitted; they stay.
    let recorded: Vec<(i32, i32)> = db.alerts().iter().map(|a| (a.id, a.rule_id)).collect();
    assert_eq!(recorded, vec![(i32::MAX - 2, 1), (i32::MAX - 1, 1), (i32::MAX, 2)]);
    // With room for all there is no error.
    let mut db = store();
    Alerts::create_rule(&mut db, 1, 7, AlertConditionType::GreaterThan, d(10.0)).unwrap();
    assert!(db.load_alert(Alert {
        id: i32::MAX - 1,
        rule_id: 1,
        triggered_at: 0,
        sent_to: "owner@example.com".to_string(),
        status: AlertStatus::Sent,
    }));
    assert_eq!(Alerts::check_and_notify(&mut db, &mut mail, 1, d(50.0)), Ok(()));
    assert_eq!(db.alerts().len(), 2);
}

#[test]
fn a_threshold_that_is_not_a_finite_number_is_refused() {
    let invalid = || AppError::Invalid { msg: "Threshold must be a finite number".to_string() };
    let mut db = store();
    for bad in [f64::NAN, -f64::NAN, f64::INFINITY, f64::NEG_INFINITY] {
        assert_eq!(
            Alerts::create_rule(&mut db, 1, 7, AlertConditionType::GreaterThan, d(bad)),
            Err(invalid())
        );
        assert_eq!(db.insert_rule(1, AlertConditionType::GreaterThan, d(bad)), Err(invalid()));
    }
    assert!(db.rules().is_empty());
    // The refusals have used up no id, and every finite number is taken.
    let rule = Alerts::create_rule(&mut db, 1, 7, AlertConditionType::GreaterThan, d(f64::MAX)).unwrap();
    assert_eq!(rule.id, 1);
    for fine in [f64::MIN, -0.0, f64::MIN_POSITIVE, f64::from_bits(1), -1e300] {
        assert_eq!(
            Alerts::update_rule(&mut db, rule.id, 7, None, Some(d(fine)), None).map(|r| r.threshold),
            Ok(d(fine))
        );
    }
    let kept = db.rule(rule.id).unwrap();
    for bad in [f64::NAN, f64::INFINITY, f64::NEG_INFINITY] {
        assert_eq!(
            Alerts::update_rule(
                &mut db,
                rule.id,
                7,
                Some(AlertConditionType::LessThan),
                Some(d(bad)),
                Some(false)
            ),
            Err(invalid())
        );
        assert!(!db.replace_rule(AlertRule { threshold: d(bad), ..kept }));
        assert!(!db.load_rule(AlertRule { id: 50, threshold: d(bad), ..kept }));
    }
    // Nothing of a refused update was applied.
    assert_eq!(db.rules(), &vec![kept]);
    assert_eq!(Store::not_finite(), invalid());
    assert_eq!(invalid().status_code(), 400);
}

#[test]
fn a_stranger_is_denied_before_the_threshold_is_looked_at() {
    let mut db = store();
    let rule = Alerts::create_rule(&mut db, 1, 7, AlertConditionType::GreaterThan, d(1.0)).unwrap();
    assert_eq!(
        Alerts::create_rule(&mut db, 1, 8, AlertConditionType::GreaterThan, d(f64::NAN)),
        Err(AppError::PermissionDenied)
    );
    assert_eq!(
        Alerts::update_rule(&mut db, rule.id, 8, None, Some(d(f64::NAN)), None),
        Err(AppError::PermissionDenied)
    );
    assert_eq!(
        Alerts::create_rule(&mut db, 9, 7, AlertConditionType::GreaterThan, d(f64::NAN)),
        Err(AppError::NotFound { msg: "Reservoir not found".to_string() })
    );
    assert_eq!(
        Alerts::update_rule(&mut db, 9, 7, None, Some(d(f64::NAN)), None),
        Err(AppError::NotFound { msg: "Rule not found".to_string() })
    );
}

#[test]
fn at_the_threshold_the_inclusive_conditions_are_recorded_and_the_strict_are_not() {
    let mut db = store();
    let conditions = [
        AlertConditionType::GreaterThan,
        AlertConditionType::LessThan,
        AlertConditionType::Equals,
        AlertConditionType::NotEquals,
        AlertConditionType::GreaterThanOrEqual,
        AlertConditionType::LessThanOrEqual,
    ];
    for c in conditions {
        Alerts::create_rule(&mut db, 1, 7, c, d(80.0)).unwrap();
    }
    let mut mail = Recorder::new(false);
    assert_eq!(Alerts::check_and_notify(&mut db, &mut mail, 1, d(80.0)), Ok(()));
    let recorded: Vec<i32> = db.alerts().iter().map(|a| a.rule_id).collect();
    assert_eq!(recorded, vec![3, 5, 6]);
    assert_eq!(mail.sent.len(), 3);
}
