//! The claims of a session token.

use vstd::prelude::*;
use vstd::string::StringExecFns;

verus! {

/// What a session token says: whose it is (`sub`, the email, and `id`),
/// when it was issued and when it expires, both in seconds since the Unix
/// epoch.
#[derive(Debug, Clone, PartialEq, Eq)]
pub struct Claims {
    pub sub: String,
    pub exp: usize,
    pub iat: usize,
    pub id: i32,
}

/// How long a token is good for: 24 hours, in seconds.
pub const TOKEN_LIFETIME: usize = 86400;

impl Claims {
    /// The claims of a token issued to the user `id` at the second `now`:
    /// it expires 24 hours later.
    pub fn issue(id: i32, email: &str, now: usize) -> (claims: Claims)
        requires
            now + TOKEN_LIFETIME <= usize::MAX,
        ensures
            claims.sub@ == email@,
            claims.id == id,
            claims.iat == now,
            claims.exp == now + TOKEN_LIFETIME,
    {
        Claims { sub: String::from_str(email), exp: now + TOKEN_LIFETIME, iat: now, id }
    }

    /// Whether the token has run out at the second `now`.
    pub fn expired_at(&self, now: usize) -> (expired: bool)
        ensures
            expired == (self.exp < now),
    {
        self.exp < now
    }
}

} // verus!
