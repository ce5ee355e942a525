use smarttank::controllers::alert::log_responses;
use smarttank::controllers::alert::rule_responses;
use smarttank::controllers::device::created_response;
use smarttank::controllers::device::device_response;
use smarttank::controllers::measurement::evaluation_due;
use smarttank::controllers::measurement::measurement_response;
use smarttank::controllers::measurement::submission_status;
use smarttank::controllers::measurement::CREATED;
use smarttank::error::AppError;
use smarttank::controllers::measurement::measurement_responses;
use smarttank::controllers::reservoir::reservoir_response;
use smarttank::double::Double;
use smarttank::models::entities;
use smarttank::models::user::UserWithStats;
use smarttank::views::admin::AdminUserDetailsResponse;
use smarttank::views::admin::UserRole;
use smarttank::views::alert::AlertConditionType;
use smarttank::views::alert::AlertLogResponse;
use smarttank::views::alert::AlertRuleResponse;
use smarttank::views::alert::AlertStatus;
use smarttank::views::device::DeviceResponse;
use smarttank::views::device::DeviceStatus;
use smarttank::views::measurement::MeasurementResponse;
use smarttank::views::reservoir::ReservoirResponse;

fn d(x: f64) -> Double {
    Double::from_bits(x.to_bits())
}

#[test]
fn roles_are_shown_and_stored_by_name() {
    let pairs = [
        (entities::UserRole::Admin, UserRole::Admin),
        (entities::UserRole::User, UserRole::User),
        (entities::UserRole::Viewer, UserRole::Viewer),
    ];
    for (stored, shown) in pairs {
        assert_eq!(UserRole::from(stored), shown);
        assert_eq!(entities::UserRole::from(shown), stored);
    }
}

#[test]
fn conditions_are_shown_and_stored_by_name() {
    let pairs = [
        (entities::AlertConditionType::GreaterThan, AlertConditionType::GreaterThan),
        (entities::AlertConditionType::LessThan, AlertConditionType::LessThan),
        (entities::AlertConditionType::Equals, AlertConditionType::Equals),
        (entities::AlertConditionType::NotEquals, AlertConditionType::NotEquals),
        (entities::AlertConditionType::GreaterThanOrEqual, AlertConditionType::GreaterThanOrEqual),
        (entities::AlertConditionType::LessThanOrEqual, AlertConditionType::LessThanOrEqual),
    ];
    for (stored, shown) in pairs {
        assert_eq!(AlertConditionType::from(stored), shown);
        assert_eq!(entities::AlertConditionType::from(shown), stored);
    }
}

#[test]
fn statuses_are_shown_and_stored_by_name() {
    let pairs = [
        (entities::AlertStatus::Pending, AlertStatus::Pending),
        (entities::AlertStatus::Sent, AlertStatus::Sent),
        (entities::AlertStatus::Failed, AlertStatus::Failed),
    ];
    for (stored, shown) in pairs {
        assert_eq!(AlertStatus::from(stored), shown);
        assert_eq!(entities::AlertStatus::from(shown), stored);
    }
    let pairs = [
        (entities::DeviceStatus::Online, DeviceStatus::Online),
        (entities::DeviceStatus::Offline, DeviceStatus::Offline),
        (entities::DeviceStatus::Maintenance, DeviceStatus::Maintenance),
    ];
    for (stored, shown) in pairs {
        assert_eq!(DeviceStatus::from(stored), shown);
        assert_eq!(entities::DeviceStatus::from(shown), stored);
    }
}

#[test]
fn a_rule_is_shown_field_by_field() {
    let rule = entities::AlertRule {
        id: 3,
        reservoir_id: 9,
        condition_type: entities::AlertConditionType::LessThan,
        threshold: d(200.0),
        is_active: false,
    };
    let shown = AlertRuleResponse {
        id: 3,
        reservoir_id: 9,
        condition_type: AlertConditionType::LessThan,
        threshold: d(200.0),
        is_active: false,
    };
    assert_eq!(AlertRuleResponse::from(rule), shown);
    assert_eq!(rule_responses(vec![rule, rule]), vec![shown, shown]);
    assert!(rule_responses(Vec::new()).is_empty());
}

#[test]
fn a_history_entry_is_shown_field_by_field() {
    let log = entities::Alert {
        id: 5,
        rule_id: 3,
        triggered_at: 1_700_000_000_000_000,
        sent_to: "owner@example.com".to_string(),
        status: entities::AlertStatus::Failed,
    };
    let shown = AlertLogResponse {
        id: 5,
        rule_id: 3,
        triggered_at: 1_700_000_000_000_000,
        sent_to: "owner@example.com".to_string(),
        status: AlertStatus::Failed,
    };
    assert_eq!(AlertLogResponse::from(log.clone()), shown);
    assert_eq!(log_responses(vec![log]), vec![shown]);
}

#[test]
fn a_user_with_counts_is_shown_to_an_administrator() {
    let stats = UserWithStats {
        id: 1,
        email: "a@example.com".to_string(),
        first_name: Some("Ivan".to_string()),
        last_name: None,
        role: entities::UserRole::Viewer,
        created_at: None,
        reservoirs_count: 2,
        devices_count: -1,
        is_banned: true,
        ban_reason: Some("spam".to_string()),
    };
    assert_eq!(
        AdminUserDetailsResponse::from(stats),
        AdminUserDetailsResponse {
            id: 1,
            email: "a@example.com".to_string(),
            first_name: Some("Ivan".to_string()),
            last_name: None,
            role: UserRole::Viewer,
            created_at: 0,
            reservoirs_count: 2,
            devices_count: u64::MAX,
            is_banned: true,
            ban_reason: Some("spam".to_string()),
        }
    );
}

#[test]
fn a_device_is_shown_with_the_key_it_is_given() {
    let device = entities::Device {
        id: 4,
        user_id: 7,
        reservoir_id: Some(1),
        name: "ESP32 Sensor 01".to_string(),
        api_key: "0123-4567".to_string(),
        status: entities::DeviceStatus::Maintenance,
        last_seen: Some(12),
    };
    assert_eq!(
        device_response(device.clone(), "0123****".to_string()),
        DeviceResponse {
            id: 4,
            name: "ESP32 Sensor 01".to_string(),
            reservoir_id: Some(1),
            status: DeviceStatus::Maintenance,
            last_seen: Some(12),
            api_key: "0123****".to_string(),
        }
    );
    assert_eq!(
        created_response(device),
        DeviceResponse {
            id: 4,
            name: "ESP32 Sensor 01".to_string(),
            reservoir_id: Some(1),
            status: DeviceStatus::Offline,
            last_seen: None,
            api_key: "0123-4567".to_string(),
        }
    );
}

#[test]
fn readings_and_reservoirs_are_shown_without_their_owners() {
    let m = entities::Measurement { time: 5, device_id: 2, value: d(450.5) };
    let shown = MeasurementResponse { time: 5, value: d(450.5), device_id: 2 };
    assert_eq!(measurement_response(m), shown);
    assert_eq!(measurement_responses(vec![m, m, m]), vec![shown, shown, shown]);
    let r = entities::Reservoir {
        id: 1,
        user_id: 7,
        name: "Main Water Tank".to_string(),
        description: Some("Located on the roof".to_string()),
        capacity: d(1000.0),
        location: None,
    };
    assert_eq!(
        reservoir_response(r),
        ReservoirResponse {
            id: 1,
            name: "Main Water Tank".to_string(),
            description: Some("Located on the roof".to_string()),
            capacity: d(1000.0),
            location: None,
        }
    );
}

#[test]
fn a_stored_measurement_is_answered_with_created_whatever_came_of_the_alerts() {
    let fault = || AppError::Database { message: "down".to_string() };
    assert_eq!(CREATED, 201);
    assert_eq!(submission_status::<AppError>(Ok(()), None), Ok(201));
    assert_eq!(submission_status::<AppError>(Ok(()), Some(Ok(()))), Ok(201));
    assert_eq!(submission_status(Ok(()), Some(Err(fault()))), Ok(201));
    assert_eq!(submission_status(Err(fault()), None), Err(fault()));
    assert_eq!(
        submission_status(Err(AppError::PermissionDenied), Some(Ok(()))),
        Err(AppError::PermissionDenied)
    );
    assert_eq!(evaluation_due::<AppError>(&Ok(()), Some(4)), Some(4));
    assert_eq!(evaluation_due::<AppError>(&Ok(()), None), None);
    assert_eq!(evaluation_due(&Err(fault()), Some(4)), None);
    assert_eq!(evaluation_due(&Err(fault()), None), None);
}
