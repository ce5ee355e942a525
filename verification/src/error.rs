//! The errors that the operations of this library return, and what each one
//! comes to when it is answered over HTTP.

use vstd::prelude::*;
use vstd::string::StringExecFns;
use vstd::std_specs::convert::FromSpecImpl;

verus! {

/// Errors of authentication and authorization.
#[derive(Clone, Copy, Debug, PartialEq, Eq, Structural)]
pub enum AuthError {
    InvalidToken,
    WrongCredentials,
    TokenExpired,
    MissingCredentials,
    UserNotFound,
    UserAlreadyExists,
    PermissionDenied,
}

/// Errors about a record that an operation was asked to work on.
#[derive(Clone, Debug, PartialEq, Eq)]
pub enum ResourceError {
    NotFound { msg: String },
    /// What was asked cannot be stored as it is; `msg` says why.
    Invalid { msg: String },
}

/// Faults of the machinery underneath; each carries the fault's own text.
#[derive(Clone, Debug, PartialEq, Eq)]
pub enum SystemError {
    Database { message: String },
    Hash { message: String },
    Jwt { message: String },
    Io { message: String },
    Any { message: String },
}

/// Every error of the library: those of `AuthError`, `ResourceError` and
/// `SystemError`, side by side.
#[derive(Clone, Debug, PartialEq, Eq)]
pub enum AppError {
    InvalidToken,
    WrongCredentials,
    TokenExpired,
    MissingCredentials,
    UserNotFound,
    UserAlreadyExists,
    PermissionDenied,
    NotFound { msg: String },
    Invalid { msg: String },
    Database { message: String },
    Hash { message: String },
    Jwt { message: String },
    Io { message: String },
    Any { message: String },
}

/// HTTP status 400.
pub const BAD_REQUEST: u16 = 400;

/// HTTP status 401.
pub const UNAUTHORIZED: u16 = 401;

/// HTTP status 403.
pub const FORBIDDEN: u16 = 403;

/// HTTP status 404.
pub const NOT_FOUND: u16 = 404;

/// HTTP status 500.
pub const INTERNAL_SERVER_ERROR: u16 = 500;

impl From<AuthError> for AppError {
    fn from(e: AuthError) -> (r: AppError) {
        match e {
            AuthError::InvalidToken => AppError::InvalidToken,
            AuthError::WrongCredentials => AppError::WrongCredentials,
            AuthError::TokenExpired => AppError::TokenExpired,
            AuthError::MissingCredentials => AppError::MissingCredentials,
            AuthError::UserNotFound => AppError::UserNotFound,
            AuthError::UserAlreadyExists => AppError::UserAlreadyExists,
            AuthError::PermissionDenied => AppError::PermissionDenied,
        }
    }
}

impl FromSpecImpl<AuthError> for AppError {
    open spec fn obeys_from_spec() -> bool {
        true
    }

    open spec fn from_spec(e: AuthError) -> AppError {
        match e {
            AuthError::InvalidToken => AppError::InvalidToken,
            AuthError::WrongCredentials => AppError::WrongCredentials,
            AuthError::TokenExpired => AppError::TokenExpired,
            AuthError::MissingCredentials => AppError::MissingCredentials,
            AuthError::UserNotFound => AppError::UserNotFound,
            AuthError::UserAlreadyExists => AppError::UserAlreadyExists,
            AuthError::PermissionDenied => AppError::PermissionDenied,
        }
    }
}

impl From<ResourceError> for AppError {
    fn from(e: ResourceError) -> (r: AppError) {
        match e {
            ResourceError::NotFound { msg } => AppError::NotFound { msg },
            ResourceError::Invalid { msg } => AppError::Invalid { msg },
        }
    }
}

impl FromSpecImpl<ResourceError> for AppError {
    open spec fn obeys_from_spec() -> bool {
        true
    }

    open spec fn from_spec(e: ResourceError) -> AppError {
        match e {
            ResourceError::NotFound { msg } => AppError::NotFound { msg },
            ResourceError::Invalid { msg } => AppError::Invalid { msg },
        }
    }
}

impl From<SystemError> for AppError {
    fn from(e: SystemError) -> (r: AppError) {
        match e {
            SystemError::Database { message } => AppError::Database { message },
            SystemError::Hash { message } => AppError::Hash { message },
            SystemError::Jwt { message } => AppError::Jwt { message },
            SystemError::Io { message } => AppError::Io { message },
            SystemError::Any { message } => AppError::Any { message },
        }
    }
}

impl FromSpecImpl<SystemError> for AppError {
    open spec fn obeys_from_spec() -> bool {
        true
    }

    open spec fn from_spec(e: SystemError) -> AppError {
        match e {
            SystemError::Database { message } => AppError::Database { message },
            SystemError::Hash { message } => AppError::Hash { message },
            SystemError::Jwt { message } => AppError::Jwt { message },
            SystemError::Io { message } => AppError::Io { message },
            SystemError::Any { message } => AppError::Any { message },
        }
    }
}

impl AppError {
    /// Whether the error is a fault of the machinery rather than a refusal:
    /// such an error is logged, and its text is kept from the client.
    pub open spec fn internal(self) -> bool {
        self is Database || self is Hash || self is Jwt || self is Io || self is Any
    }

    /// Whether this is `NotFound` with the given text.
    pub open spec fn is_not_found(self, text: Seq<char>) -> bool {
        self matches AppError::NotFound { msg } && msg@ == text
    }

    /// Whether this is `Invalid` with the given text.
    pub open spec fn is_invalid(self, text: Seq<char>) -> bool {
        self matches AppError::Invalid { msg } && msg@ == text
    }

    /// Whether this is `Database` with the given text.
    pub open spec fn is_database(self, text: Seq<char>) -> bool {
        self matches AppError::Database { message } && message@ == text
    }

    /// The HTTP status that answers the error.
    pub open spec fn status_spec(self) -> u16 {
        match self {
            AppError::MissingCredentials => UNAUTHORIZED,
            AppError::PermissionDenied => FORBIDDEN,
            AppError::TokenExpired => UNAUTHORIZED,
            AppError::UserAlreadyExists => BAD_REQUEST,
            AppError::UserNotFound => UNAUTHORIZED,
            AppError::WrongCredentials => UNAUTHORIZED,
            AppError::InvalidToken => UNAUTHORIZED,
            AppError::NotFound { .. } => NOT_FOUND,
            AppError::Invalid { .. } => BAD_REQUEST,
            _ => INTERNAL_SERVER_ERROR,
        }
    }

    /// The machine-readable code that answers the error.
    pub open spec fn code_spec(self) -> Seq<char> {
        match self {
            AppError::MissingCredentials => "MISSING_CREDENTIALS"@,
            AppError::PermissionDenied => "PERMISSION_DENIED"@,
            AppError::TokenExpired => "TOKEN_EXPIRED"@,
            AppError::UserAlreadyExists => "USER_EXISTS"@,
            AppError::UserNotFound => "USER_NOT_FOUND"@,
            AppError::WrongCredentials => "WRONG_CREDENTIALS"@,
            AppError::InvalidToken => "INVALID_TOKEN"@,
            AppError::NotFound { .. } => "NOT_FOUND"@,
            AppError::Invalid { .. } => "INVALID_INPUT"@,
            _ => "INTERNAL_ERROR"@,
        }
    }

    /// The error's own text.
    pub open spec fn text_spec(self) -> Seq<char> {
        match self {
            AppError::InvalidToken => "Invalid token"@,
            AppError::WrongCredentials => "Invalid credentials"@,
            AppError::TokenExpired => "Token expired"@,
            AppError::MissingCredentials => "Missing credentials"@,
            AppError::UserNotFound => "User not found"@,
            AppError::UserAlreadyExists => "User already exists"@,
            AppError::PermissionDenied => "Permission denied"@,
            AppError::NotFound { msg } => msg@,
            AppError::Invalid { msg } => msg@,
            AppError::Database { message } => "Database error: "@ + message@,
            AppError::Hash { message } => "Password hashing error: "@ + message@,
            AppError::Jwt { message } => "JWT error: "@ + message@,
            AppError::Io { message } => "Database error: "@ + message@,
            AppError::Any { message } => "Internal error: "@ + message@,
        }
    }

    /// The text that the client is given: the error's own for a refusal, a
    /// fixed sentence for an internal fault.
    pub open spec fn public_text_spec(self) -> Seq<char> {
        if self.status_spec() == INTERNAL_SERVER_ERROR {
            "An internal server error occurred"@
        } else {
            self.text_spec()
        }
    }

    /// Whether the error is to be logged before it is answered. A fault of
    /// reading or writing a socket is an internal error that is not logged.
    pub open spec fn logged_spec(self) -> bool {
        self is Database || self is Hash || self is Jwt || self is Any
    }

    /// The HTTP status that answers the error.
    pub fn status_code(&self) -> (status: u16)
        ensures
            status == self.status_spec(),
            status == INTERNAL_SERVER_ERROR <==> self.internal(),
    {
        match self {
            AppError::MissingCredentials => UNAUTHORIZED,
            AppError::PermissionDenied => FORBIDDEN,
            AppError::TokenExpired => UNAUTHORIZED,
            AppError::UserAlreadyExists => BAD_REQUEST,
            AppError::UserNotFound => UNAUTHORIZED,
            AppError::WrongCredentials => UNAUTHORIZED,
            AppError::InvalidToken => UNAUTHORIZED,
            AppError::NotFound { .. } => NOT_FOUND,
            AppError::Invalid { .. } => BAD_REQUEST,
            AppError::Database { .. }
            | AppError::Hash { .. }
            | AppError::Jwt { .. }
            | AppError::Io { .. }
            | AppError::Any { .. } => INTERNAL_SERVER_ERROR,
        }
    }

    /// The machine-readable code that answers the error.
    pub fn code(&self) -> (code: &'static str)
        ensures
            code@ == self.code_spec(),
    {
        match self {
            AppError::MissingCredentials => "MISSING_CREDENTIALS",
            AppError::PermissionDenied => "PERMISSION_DENIED",
            AppError::TokenExpired => "TOKEN_EXPIRED",
            AppError::UserAlreadyExists => "USER_EXISTS",
            AppError::UserNotFound => "USER_NOT_FOUND",
            AppError::WrongCredentials => "WRONG_CREDENTIALS",
            AppError::InvalidToken => "INVALID_TOKEN",
            AppError::NotFound { .. } => "NOT_FOUND",
            AppError::Invalid { .. } => "INVALID_INPUT",
            AppError::Database { .. }
            | AppError::Hash { .. }
            | AppError::Jwt { .. }
            | AppError::Io { .. }
            | AppError::Any { .. } => "INTERNAL_ERROR",
        }
    }

    /// The error's own text.
    pub fn message(&self) -> (text: String)
        ensures
            text@ == self.text_spec(),
    {
        match self {
            AppError::InvalidToken => String::from_str("Invalid token"),
            AppError::WrongCredentials => String::from_str("Invalid credentials"),
            AppError::TokenExpired => String::from_str("Token expired"),
            AppError::MissingCredentials => String::from_str("Missing credentials"),
            AppError::UserNotFound => String::from_str("User not found"),
            AppError::UserAlreadyExists => String::from_str("User already exists"),
            AppError::PermissionDenied => String::from_str("Permission denied"),
            AppError::NotFound { msg } => msg.clone(),
            AppError::Invalid { msg } => msg.clone(),
            AppError::Database { message } => String::from_str("Database error: ").concat(
                message.as_str(),
            ),
            AppError::Hash { message } => String::from_str("Password hashing error: ").concat(
                message.as_str(),
            ),
            AppError::Jwt { message } => String::from_str("JWT error: ").concat(message.as_str()),
            AppError::Io { message } => String::from_str("Database error: ").concat(
                message.as_str(),
            ),
            AppError::Any { message } => String::from_str("Internal error: ").concat(
                message.as_str(),
            ),
        }
    }

    /// The text that the client is given.
    pub fn public_message(&self) -> (text: String)
        ensures
            text@ == self.public_text_spec(),
    {
        if self.status_code() == INTERNAL_SERVER_ERROR {
            String::from_str("An internal server error occurred")
        } else {
            self.message()
        }
    }

    /// Whether the error is to be logged before it is answered.
    pub fn is_logged(&self) -> (logged: bool)
        ensures
            logged == self.logged_spec(),
    {
        match self {
            AppError::Database { .. }
            | AppError::Hash { .. }
            | AppError::Jwt { .. }
            | AppError::Any { .. } => true,
            _ => false,
        }
    }
}

} // verus!
