use smarttank::config::Config;
use smarttank::utils::jwt::Claims;
use smarttank::utils::jwt::TOKEN_LIFETIME;

fn config() -> Config {
    Config::new(
        Some("127.0.0.1".to_string()),
        Some("8080".to_string()),
        "tank".to_string(),
        "s3cret".to_string(),
        "db.internal".to_string(),
        "smarttank".to_string(),
    )
}

#[test]
fn the_socket_is_host_colon_port() {
    assert_eq!(config().socket(), "127.0.0.1:8080");
}

#[test]
fn host_and_port_fall_back() {
    let c = Config::new(None, None, "u".to_string(), "p".to_string(), "h".to_string(), "n".to_string());
    assert_eq!(c.app_host, "0.0.0.0");
    assert_eq!(c.app_port, "3000");
    assert_eq!(c.socket(), "0.0.0.0:3000");
    let c = Config::new(None, Some("81".to_string()), "u".to_string(), "p".to_string(), "h".to_string(), "n".to_string());
    assert_eq!(c.socket(), "0.0.0.0:81");
}

#[test]
fn the_connection_string_names_user_password_database_and_host() {
    assert_eq!(
        config().db_connection_str(),
        "postgresql:///?user=tank&password=s3cret&dbname=smarttank&host=db.internal"
    );
    let empty = Config::new(None, None, String::new(), String::new(), String::new(), String::new());
    assert_eq!(empty.db_connection_str(), "postgresql:///?user=&password=&dbname=&host=");
}

#[test]
fn a_token_lasts_a_day() {
    let claims = Claims::issue(42, "user@example.com", 1_700_000_000);
    assert_eq!(
        claims,
        Claims { sub: "user@example.com".to_string(), exp: 1_700_086_400, iat: 1_700_000_000, id: 42 }
    );
    assert_eq!(TOKEN_LIFETIME, 24 * 60 * 60);
    assert!(!claims.expired_at(1_700_000_000));
    assert!(!claims.expired_at(1_700_086_400));
    assert!(claims.expired_at(1_700_086_401));
}
