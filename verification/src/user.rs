//! The user record as the credential store keeps it, the body of a login or
//! registration request, and the rules a body has to meet.

use crate::error::AuthError;
use crate::password::{phc_verification, verify_password};
use vstd::arithmetic::power::pow;
use vstd::prelude::*;

verus! {

/// A user as stored: the identifier (the 128 bits of a UUID), the unique
/// username, and the password hash, never the password.
#[derive(Clone, Debug, PartialEq, Eq)]
pub struct User {
    pub id: u128,
    pub username: String,
    pub password: String,
}

/// The mathematical value of a [`User`].
pub struct UserView {
    pub id: u128,
    pub username: Seq<char>,
    pub password: Seq<char>,
}

impl View for User {
    type V = UserView;

    open spec fn view(&self) -> UserView {
        UserView { id: self.id, username: self.username@, password: self.password@ }
    }
}

/// What a registration hands to the store: the username and the password hash.
#[derive(Clone, Debug, PartialEq, Eq)]
pub struct NewUser {
    pub username: String,
    pub password: String,
}

/// The mathematical value of a [`NewUser`].
pub struct NewUserView {
    pub username: Seq<char>,
    pub password: Seq<char>,
}

impl View for NewUser {
    type V = NewUserView;

    open spec fn view(&self) -> NewUserView {
        NewUserView { username: self.username@, password: self.password@ }
    }
}

/// The body of a login or registration request.
#[derive(Clone, Debug, PartialEq, Eq)]
pub struct LoginBody {
    pub username: String,
    pub password: String,
}

/// The least number of characters in a username.
pub const MIN_USERNAME_LENGTH: u64 = 1;

/// The least number of characters in a password.
pub const MIN_PASSWORD_LENGTH: u64 = 6;

/// Whether a username and a password are long enough, counted in characters.
pub open spec fn acceptable(username: Seq<char>, password: Seq<char>) -> bool {
    username.len() >= MIN_USERNAME_LENGTH && password.len() >= MIN_PASSWORD_LENGTH
}

/// The canonical text of an identifier: its 32 hexadecimal digits in lower
/// case, most significant first, in groups of 8, 4, 4, 4 and 12 with a hyphen
/// between two groups.
pub open spec fn uuid_text(id: u128) -> Seq<char> {
    Seq::new(
        36,
        |i: int|
            if i == 8 || i == 13 || i == 18 || i == 23 {
                '-'
            } else {
                let hyphens_before: int = if i > 23 {
                    4
                } else if i > 18 {
                    3
                } else if i > 13 {
                    2
                } else if i > 8 {
                    1
                } else {
                    0
                };
                let digit = i - hyphens_before;
                "0123456789abcdef"@[(id as int / pow(16, (31 - digit) as nat)) % 16]
            },
    )
}

/// `validator::validate_length` with a lower bound only: the crate counts the
/// characters of the text and compares the count with the bound.
#[verifier::external_body]
fn has_min_length(text: &str, min: u64) -> (long_enough: bool)
    ensures
        long_enough == (text@.len() >= min),
{
    validator::validate_length(text, Some(min), None, None)
}

/// `Uuid::from_u128` and the `Display` of the UUID, which prints the
/// hyphenated form in lower case.
#[verifier::external_body]
fn uuid_to_string(id: u128) -> (text: String)
    ensures
        text@ == uuid_text(id),
{
    uuid::Uuid::from_u128(id).to_string()
}

impl LoginBody {
    /// Accepts the body where the username has at least one character and the
    /// password at least six, and answers [`AuthError::Validation`] otherwise.
    pub fn validate(&self) -> (r: Result<(), AuthError>)
        ensures
            acceptable(self.username@, self.password@) ==> r == Ok::<(), AuthError>(()),
            !acceptable(self.username@, self.password@) ==> r == Err::<(), AuthError>(
                AuthError::Validation,
            ),
    {
        if has_min_length(self.username.as_str(), MIN_USERNAME_LENGTH) && has_min_length(
            self.password.as_str(),
            MIN_PASSWORD_LENGTH,
        ) {
            Ok(())
        } else {
            Err(AuthError::Validation)
        }
    }
}

impl User {
    /// The subject under which tokens speak for this user: the text of the id.
    pub fn subject(&self) -> (subject: String)
        ensures
            subject@ == uuid_text(self.id),
    {
        uuid_to_string(self.id)
    }

    /// Whether `password` is this user's password. A stored hash that cannot
    /// be parsed matches no password.
    pub fn verify_password(&self, password: &str) -> (matches: bool)
        ensures
            matches == (phc_verification(password@, self.password@) == Some(true)),
    {
        match verify_password(password, self.password.as_str()) {
            Ok(matches) => matches,
            Err(_) => false,
        }
    }
}

} // verus!
