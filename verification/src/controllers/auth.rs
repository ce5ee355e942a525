//! What is decided when a user registers, signs in or changes a password.

use vstd::prelude::*;
use crate::error::AppError;
use crate::models::entities::User;
use crate::views::admin::role_shown;
use crate::views::admin::UserRole;
use crate::views::auth::AuthResponse;
use crate::views::auth::UserProfileResponse;

verus! {

#[verifier::external_type_specification]
#[verifier::external_body]
pub struct ExBcryptError(bcrypt::BcryptError);

/// What `bcrypt::verify` makes of a password and a stored hash:
/// `Some(true)` where the hash is that of the password, `Some(false)` where
/// it is that of another, and `None` where it fails, as it does on a hash
/// that is not well formed.
pub uninterp spec fn bcrypt_verdict(password: Seq<char>, hash: Seq<char>) -> Option<bool>;

/// `bcrypt::verify` on the bytes of `password` and on `hash`. The call
/// reads nothing but its two arguments, so its answer is named by them.
#[verifier::external_body]
fn bcrypt_verify(password: &str, hash: &str) -> (r: Result<bool, bcrypt::BcryptError>)
    ensures
        r matches Ok(same) ==> bcrypt_verdict(password@, hash@) == Some(same),
        r is Err ==> bcrypt_verdict(password@, hash@) is None,
{
    bcrypt::verify(password, hash)
}

/// `bcrypt::hash` on the bytes of `password`, at `bcrypt::DEFAULT_COST`. The
/// salt is random, so which hash comes out is left open, and so is whether
/// one comes out: the call fails where the system gives no random bytes.
/// What is claimed of a hash that does come out is what the crate is for:
/// `bcrypt::verify` recomputes it from the password with the cost and the
/// salt that it carries, and finds the two the same.
#[verifier::external_body]
fn bcrypt_hash(password: &str) -> (r: Result<String, bcrypt::BcryptError>)
    ensures
        r matches Ok(hash) ==> bcrypt_verdict(password@, hash@) == Some(true),
{
    bcrypt::hash(password, bcrypt::DEFAULT_COST)
}

/// The text of a `bcrypt::BcryptError`, as its `Display` writes it.
#[verifier::external_body]
fn bcrypt_error_text(e: &bcrypt::BcryptError) -> String {
    e.to_string()
}

/// Registration goes on only where the email is not taken.
pub fn ensure_email_is_free(taken: bool) -> (r: Result<(), AppError>)
    ensures
        r == if taken {
            Err::<(), AppError>(AppError::UserAlreadyExists)
        } else {
            Ok::<(), AppError>(())
        },
{
    if taken {
        Err(AppError::UserAlreadyExists)
    } else {
        Ok(())
    }
}

/// What was looked up for the email of a sign-in; `WrongCredentials`
/// where no account has the email.
pub fn known_user<T>(found: Option<T>) -> (r: Result<T, AppError>)
    ensures
        r == match found {
            Some(user) => Ok::<T, AppError>(user),
            None => Err::<T, AppError>(AppError::WrongCredentials),
        },
{
    match found {
        Some(user) => Ok(user),
        None => Err(AppError::WrongCredentials),
    }
}

/// What a comparison of a password with a stored hash comes to: a match
/// lets the user in, a mismatch is `WrongCredentials`, and a comparison that
/// failed is a `Hash` error.
pub fn password_verdict(outcome: Result<bool, bcrypt::BcryptError>) -> (r: Result<(), AppError>)
    ensures
        match outcome {
            Ok(true) => r is Ok,
            Ok(false) => r == Err::<(), AppError>(AppError::WrongCredentials),
            Err(_) => r matches Err(AppError::Hash { .. }),
        },
{
    match outcome {
        Ok(true) => Ok(()),
        Ok(false) => Err(AppError::WrongCredentials),
        Err(e) => Err(AppError::Hash { message: bcrypt_error_text(&e) }),
    }
}

/// Compares `password` with the stored hash `hashed`.
pub fn check_password(password: &str, hashed: &str) -> (r: Result<(), AppError>)
    ensures
        match bcrypt_verdict(password@, hashed@) {
            Some(true) => r is Ok,
            Some(false) => r == Err::<(), AppError>(AppError::WrongCredentials),
            None => r matches Err(AppError::Hash { .. }),
        },
{
    password_verdict(bcrypt_verify(password, hashed))
}

/// What hashing a password comes to: the hash, or a `Hash` error.
pub fn hashing_outcome(outcome: Result<String, bcrypt::BcryptError>) -> (r: Result<
    String,
    AppError,
>)
    ensures
        match outcome {
            Ok(hash) => r == Ok::<String, AppError>(hash),
            Err(_) => r matches Err(AppError::Hash { .. }),
        },
{
    match outcome {
        Ok(hash) => Ok(hash),
        Err(e) => Err(AppError::Hash { message: bcrypt_error_text(&e) }),
    }
}

/// A salted hash of `password` to store: one against which `password`
/// itself, compared by `check_password`, is let in. Two calls give two
/// hashes. Where hashing failed, the error is a `Hash` error.
pub fn hash_password(password: &str) -> (r: Result<String, AppError>)
    ensures
        r matches Ok(hash) ==> bcrypt_verdict(password@, hash@) == Some(true),
        r matches Err(e) ==> e is Hash,
{
    hashing_outcome(bcrypt_hash(password))
}

/// The answer to a user who has registered or signed in.
pub fn auth_response(token: String, user: &User) -> (response: AuthResponse)
    ensures
        response.token == token,
        response.user_id == user.id,
        response.email@ == user.email@,
{
    AuthResponse { token, user_id: user.id, email: user.email.clone() }
}

/// A user as it sees itself: a creation time that is not known shows as
/// the epoch.
pub fn profile(user: User) -> (response: UserProfileResponse)
    ensures
        response == (UserProfileResponse {
            id: user.id,
            email: user.email,
            first_name: user.first_name,
            last_name: user.last_name,
            role: role_shown(user.role),
            created_at: match user.created_at {
                Some(t) => t,
                None => 0,
            },
        }),
{
    UserProfileResponse {
        id: user.id,
        email: user.email,
        first_name: user.first_name,
        last_name: user.last_name,
        role: UserRole::from(user.role),
        created_at: match user.created_at {
            Some(t) => t,
            None => 0,
        },
    }
}

} // verus!
