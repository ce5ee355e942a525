use smarttank::controllers::auth::auth_response;
use smarttank::controllers::auth::check_password;
use smarttank::controllers::auth::ensure_email_is_free;
use smarttank::controllers::auth::hash_password;
use smarttank::controllers::auth::hashing_outcome;
use smarttank::controllers::auth::known_user;
use smarttank::controllers::auth::password_verdict;
use smarttank::controllers::auth::profile;
use smarttank::error::AppError;
use smarttank::models::entities::User;
use smarttank::models::entities::UserRole;
use smarttank::views::auth::AuthResponse;
use smarttank::views::auth::UserProfileResponse;

fn user() -> User {
    User {
        id: 7,
        email: "owner@example.com".to_string(),
        hashed_password: "hash".to_string(),
        first_name: Some("Ivan".to_string()),
        last_name: None,
        role: UserRole::Admin,
        is_banned: false,
        ban_reason: None,
        created_at: None,
    }
}

#[test]
fn a_password_matches_its_own_hash_only() {
    let hash = hash_password("password123").unwrap();
    assert_eq!(hash.len(), 60);
    assert_ne!(hash, "password123");
    assert_eq!(check_password("password123", &hash), Ok(()));
    assert_eq!(check_password("password124", &hash), Err(AppError::WrongCredentials));
}

#[test]
fn two_hashes_of_one_password_differ() {
    let first = hash_password("hunter2").unwrap();
    let second = hash_password("hunter2").unwrap();
    assert_ne!(first, second);
}

#[test]
fn a_malformed_hash_is_a_hash_error() {
    assert_eq!(
        check_password("password123", "password123"),
        Err(AppError::Hash {
            message: "Invalid hash: the hash format is malformed; expected 60 ASCII bytes".to_string()
        })
    );
}

#[test]
fn a_comparison_comes_to_a_verdict() {
    assert_eq!(password_verdict(Ok(true)), Ok(()));
    assert_eq!(password_verdict(Ok(false)), Err(AppError::WrongCredentials));
    assert_eq!(
        password_verdict(Err(bcrypt::BcryptError::CostNotAllowed(99))),
        Err(AppError::Hash { message: "Cost needs to be between 4 and 31, got 99".to_string() })
    );
    assert_eq!(hashing_outcome(Ok("h".to_string())), Ok("h".to_string()));
    assert_eq!(
        hashing_outcome(Err(bcrypt::BcryptError::Truncation(80))),
        Err(AppError::Hash { message: "Expected 72 bytes or fewer; found 80 bytes".to_string() })
    );
}

#[test]
fn registration_and_sign_in_refuse_by_the_book() {
    assert_eq!(ensure_email_is_free(true), Err(AppError::UserAlreadyExists));
    assert_eq!(ensure_email_is_free(false), Ok(()));
    assert_eq!(known_user::<User>(None), Err(AppError::WrongCredentials));
    assert_eq!(known_user(Some(user())), Ok(user()));
}

#[test]
fn a_signed_in_user_is_answered_with_its_token() {
    assert_eq!(
        auth_response("token".to_string(), &user()),
        AuthResponse { token: "token".to_string(), user_id: 7, email: "owner@example.com".to_string() }
    );
    assert_eq!(
        profile(user()),
        UserProfileResponse {
            id: 7,
            email: "owner@example.com".to_string(),
            first_name: Some("Ivan".to_string()),
            last_name: None,
            role: smarttank::views::admin::UserRole::Admin,
            created_at: 0,
        }
    );
    assert_eq!(profile(User { created_at: Some(5), ..user() }).created_at, 5);
}

#[test]
fn every_password_is_let_in_against_its_own_hash() {
    let long = "x".repeat(100);
    for password in ["", "пароль-密码", long.as_str()] {
        let hash = hash_password(password).unwrap();
        assert_eq!(check_password(password, &hash), Ok(()), "{:?}", password);
    }
}
