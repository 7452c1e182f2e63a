//! The errors of the authentication core and what a client gets to see of them:
//! a status and a message that gives nothing away.

use vstd::prelude::*;
use vstd::string::StringExecFns;

verus! {

/// Every way in which login, registration or the admission of a request can fail.
#[derive(Clone, Copy, Debug, PartialEq, Eq, Structural)]
pub enum AuthError {
    /// The request body does not hold a usable username and password.
    Validation,
    /// Unknown user or wrong password: one kind for both, by design.
    InvalidCredentials,
    /// The username is already registered.
    UsernameTaken,
    /// The request carries no `Authorization` header.
    MissingAuth,
    /// The `Authorization` header is not `Bearer ` and a token.
    MalformedAuth,
    /// The bearer token was not accepted.
    Unauthorized,
    /// The password could not be hashed.
    Hashing,
    /// The stored password hash cannot be parsed.
    MalformedHash,
    /// The credential store failed.
    Storage,
    /// The token could not be produced.
    TokenIssue,
}

/// What goes out to the client: a message and, where one was chosen, a status.
#[derive(Clone, Debug, PartialEq, Eq)]
pub struct AppError {
    pub message: String,
    pub code: Option<u16>,
}

/// The status sent where an error names none.
pub const INTERNAL_SERVER_ERROR: u16 = 500;

/// The one message for every failure inside the service.
pub open spec fn internal_text() -> Seq<char> {
    "Internal server error"@
}

impl AuthError {
    /// The HTTP status of each kind: 400 for a body that does not validate,
    /// 401 for everything about credentials and tokens, 409 for a taken
    /// username, 500 for what went wrong inside.
    pub open spec fn status(self) -> u16 {
        match self {
            AuthError::Validation => 400,
            AuthError::InvalidCredentials => 401,
            AuthError::MissingAuth => 401,
            AuthError::MalformedAuth => 401,
            AuthError::Unauthorized => 401,
            AuthError::UsernameTaken => 409,
            AuthError::Hashing => 500,
            AuthError::MalformedHash => 500,
            AuthError::Storage => 500,
            AuthError::TokenIssue => 500,
        }
    }

    /// The message of each kind. The kinds that stand for a failure inside
    /// the service share one message, so that nothing of it leaks.
    pub open spec fn text(self) -> Seq<char> {
        match self {
            AuthError::Validation => "Invalid username or password format"@,
            AuthError::InvalidCredentials => "Invalid username or password"@,
            AuthError::UsernameTaken => "User already exists"@,
            AuthError::MissingAuth => "Missing authorization header"@,
            AuthError::MalformedAuth => "Invalid authorization header"@,
            AuthError::Unauthorized => "Could not decode token"@,
            AuthError::Hashing => internal_text(),
            AuthError::MalformedHash => internal_text(),
            AuthError::Storage => internal_text(),
            AuthError::TokenIssue => internal_text(),
        }
    }

    /// The HTTP status that answers this error.
    pub fn status_code(&self) -> (code: u16)
        ensures
            code == self.status(),
    {
        match self {
            AuthError::Validation => 400,
            AuthError::InvalidCredentials
            | AuthError::MissingAuth
            | AuthError::MalformedAuth
            | AuthError::Unauthorized => 401,
            AuthError::UsernameTaken => 409,
            AuthError::Hashing
            | AuthError::MalformedHash
            | AuthError::Storage
            | AuthError::TokenIssue => INTERNAL_SERVER_ERROR,
        }
    }

    /// The message that answers this error.
    pub fn message(&self) -> (message: String)
        ensures
            message@ == self.text(),
    {
        match self {
            AuthError::Validation => String::from_str("Invalid username or password format"),
            AuthError::InvalidCredentials => String::from_str("Invalid username or password"),
            AuthError::UsernameTaken => String::from_str("User already exists"),
            AuthError::MissingAuth => String::from_str("Missing authorization header"),
            AuthError::MalformedAuth => String::from_str("Invalid authorization header"),
            AuthError::Unauthorized => String::from_str("Could not decode token"),
            AuthError::Hashing
            | AuthError::MalformedHash
            | AuthError::Storage
            | AuthError::TokenIssue => String::from_str("Internal server error"),
        }
    }

    /// The response for this error: its message under its status.
    pub fn into_app_error(self) -> (response: AppError)
        ensures
            response.message@ == self.text(),
            response.code == Some(self.status()),
    {
        AppError { message: self.message(), code: Some(self.status_code()) }
    }
}

impl AppError {
    /// The status under which the error goes out: the one it names, or 500.
    pub fn status_code(&self) -> (code: u16)
        ensures
            code == match self.code {
                Some(named) => named,
                None => INTERNAL_SERVER_ERROR,
            },
    {
        match self.code {
            Some(named) => named,
            None => INTERNAL_SERVER_ERROR,
        }
    }
}

/// The response for a failure that no handler dealt with: status 500 and the
/// common message. The detail is for the log; the response never carries it.
pub fn handle_any_error(detail: &str) -> (response: AppError)
    ensures
        response.message@ == internal_text(),
        response.code == Some(INTERNAL_SERVER_ERROR),
{
    AppError { message: String::from_str("Internal server error"), code: Some(INTERNAL_SERVER_ERROR) }
}

} // verus!
