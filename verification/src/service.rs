//! Login and registration: what to answer once the credential store has been
//! asked. The store itself is reached by the caller; every function here takes
//! what the store said and the current time, and decides.

use crate::error::AuthError;
use crate::password::{
    argon2_hashing, hash_password, hash_view, hashing_result, phc_verification, verify_password,
    HashError, MAX_PASSWORD_LENGTH,
};
use crate::token::{issue, jwt_decoding, jwt_encoding, verdict, ClaimsView, JwtClaims, TokenError};
use crate::user::{uuid_text, NewUser, NewUserView, User, UserView};
use vstd::prelude::*;

verus! {

/// What the service is configured with once, at startup: the key that signs
/// the tokens and how long a token lives, in seconds. The lifetime is positive.
pub struct AuthConfig {
    signing_key: Vec<u8>,
    token_ttl: i64,
}

/// Why the store did not insert a user.
#[derive(Clone, Copy, Debug, PartialEq, Eq, Structural)]
pub enum StoreFailure {
    /// A user of that name exists.
    UniquenessViolation,
    /// The store could not be reached or did not answer in time.
    Unavailable,
}

/// The lifetime of a token where nothing else is configured: one day.
pub const DEFAULT_TOKEN_TTL: i64 = 86400;

impl AuthConfig {
    #[verifier::type_invariant]
    spec fn lives(self) -> bool {
        self.token_ttl > 0
    }

    /// The signing key.
    pub closed spec fn key(self) -> Seq<u8> {
        self.signing_key@
    }

    /// The lifetime of a token, in seconds.
    pub closed spec fn ttl(self) -> int {
        self.token_ttl as int
    }

    /// A configuration with the given key and lifetime, or `None` where the
    /// lifetime is not positive.
    pub fn new(signing_key: Vec<u8>, token_ttl: i64) -> (config: Option<AuthConfig>)
        ensures
            token_ttl <= 0 ==> config is None,
            token_ttl > 0 ==> (config matches Some(c) && c.key() == signing_key@ && c.ttl()
                == token_ttl),
    {
        if token_ttl > 0 {
            Some(AuthConfig { signing_key, token_ttl })
        } else {
            None
        }
    }

    /// The signing key.
    pub fn signing_key(&self) -> (key: &[u8])
        ensures
            key@ == self.key(),
    {
        self.signing_key.as_slice()
    }

    /// The lifetime of a token, in seconds: always positive.
    pub fn token_ttl(&self) -> (ttl: i64)
        ensures
            ttl == self.ttl(),
            ttl > 0,
    {
        proof {
            use_type_invariant(self);
        }
        self.token_ttl
    }
}

/// The mathematical value of a result that carries a token.
pub open spec fn token_view(r: Result<String, AuthError>) -> Result<Seq<char>, AuthError> {
    match r {
        Ok(token) => Ok(token@),
        Err(e) => Err(e),
    }
}

/// The mathematical value of a result that carries a record to insert.
pub open spec fn request_view(r: Result<NewUser, AuthError>) -> Result<NewUserView, AuthError> {
    match r {
        Ok(new_user) => Ok(new_user@),
        Err(e) => Err(e),
    }
}

/// The mathematical value of what a lookup in the store found.
pub open spec fn found_view(found: Option<&User>) -> Option<UserView> {
    match found {
        Some(user) => Some(user@),
        None => None,
    }
}

/// The mathematical value of what the store made of an insert.
pub open spec fn inserted_view(inserted: Result<&User, StoreFailure>) -> Result<
    UserView,
    StoreFailure,
> {
    match inserted {
        Ok(user) => Ok(user@),
        Err(e) => Err(e),
    }
}

/// The token issued at `now` to the user `id`: its subject is the text of the
/// id, its expiry is `now + ttl`. Where that time cannot be represented, the
/// answer is [`AuthError::TokenIssue`].
pub open spec fn token_for(id: u128, key: Seq<u8>, ttl: int, now: int) -> Result<
    Seq<char>,
    AuthError,
> {
    if now + ttl > i64::MAX {
        Err(AuthError::TokenIssue)
    } else {
        Ok(jwt_encoding(uuid_text(id), now + ttl, key))
    }
}

/// What a login attempt is answered with, given what the store found.
pub open spec fn login_outcome(
    found: Option<UserView>,
    password: Seq<char>,
    key: Seq<u8>,
    ttl: int,
    now: int,
) -> Result<Seq<char>, AuthError> {
    match found {
        None => Err(AuthError::InvalidCredentials),
        Some(user) => match phc_verification(password, user.password) {
            None => Err(AuthError::MalformedHash),
            Some(false) => Err(AuthError::InvalidCredentials),
            Some(true) => token_for(user.id, key, ttl, now),
        },
    }
}

/// What the first half of a registration comes to, given what the store found
/// under the username and what hashing the password gave: a taken name is
/// refused before anything else, then a failed hash; otherwise the record to
/// insert.
pub open spec fn registration_request(
    existing: Option<UserView>,
    username: Seq<char>,
    hashed: Result<Seq<char>, HashError>,
) -> Result<NewUserView, AuthError> {
    match existing {
        Some(_) => Err(AuthError::UsernameTaken),
        None => match hashed {
            Ok(hash) => Ok(NewUserView { username, password: hash }),
            Err(_) => Err(AuthError::Hashing),
        },
    }
}

/// What a registration is answered with once the store has tried the insert.
pub open spec fn registration_outcome(
    inserted: Result<UserView, StoreFailure>,
    key: Seq<u8>,
    ttl: int,
    now: int,
) -> Result<Seq<char>, AuthError> {
    match inserted {
        Ok(user) => token_for(user.id, key, ttl, now),
        Err(StoreFailure::UniquenessViolation) => Err(AuthError::UsernameTaken),
        Err(StoreFailure::Unavailable) => Err(AuthError::Storage),
    }
}

/// What a lookup in the store comes to: what was found is handed on, and a
/// store that failed is [`AuthError::Storage`], never an error of the
/// credentials.
pub fn lookup_outcome<'a>(looked_up: Result<Option<&'a User>, StoreFailure>) -> (r: Result<
    Option<&'a User>,
    AuthError,
>)
    ensures
        looked_up matches Ok(found) ==> r == Ok::<Option<&User>, AuthError>(found),
        looked_up is Err ==> r == Err::<Option<&User>, AuthError>(AuthError::Storage),
{
    match looked_up {
        Ok(found) => Ok(found),
        Err(_) => Err(AuthError::Storage),
    }
}

/// Whether the password check lets a login through: a match does, a mismatch
/// is [`AuthError::InvalidCredentials`], and a stored hash that cannot be
/// parsed is [`AuthError::MalformedHash`].
pub fn credentials_verdict(check: Result<bool, HashError>) -> (r: Result<(), AuthError>)
    ensures
        r == match check {
            Ok(true) => Ok::<(), AuthError>(()),
            Ok(false) => Err(AuthError::InvalidCredentials),
            Err(HashError::MalformedHash) => Err(AuthError::MalformedHash),
            Err(HashError::Hashing) => Err(AuthError::Hashing),
        },
{
    match check {
        Ok(true) => Ok(()),
        Ok(false) => Err(AuthError::InvalidCredentials),
        Err(HashError::MalformedHash) => Err(AuthError::MalformedHash),
        Err(HashError::Hashing) => Err(AuthError::Hashing),
    }
}

/// Whether a token speaks for the user `id` from `now` until the lifetime
/// `ttl` has passed: verified under the key at any time before `now + ttl`, it
/// yields the text of the id as subject and `now + ttl` as expiry.
pub open spec fn speaks_for(token: Seq<char>, id: u128, key: Seq<u8>, ttl: int, now: int) -> bool {
    forall|at: int|
        at < now + ttl ==> #[trigger] verdict(jwt_decoding(token, key), at) == Ok::<
            ClaimsView,
            TokenError,
        >(ClaimsView { sub: uuid_text(id), exp: now + ttl })
}

/// Issues the token that speaks for `user` from `now` until the configured
/// lifetime has passed.
///
/// The token is exactly [`token_for`], and it speaks for the user: the
/// lifetime is positive, so the token is good at `now` itself.
pub fn generate_jwt(user: &User, config: &AuthConfig, now: i64) -> (r: Result<String, AuthError>)
    ensures
        token_view(r) == token_for(user.id, config.key(), config.ttl(), now as int),
        r matches Ok(token) ==> speaks_for(
            token@,
            user.id,
            config.key(),
            config.ttl(),
            now as int,
        ),
        config.ttl() > 0,
{
    let ttl = config.token_ttl();
    match now.checked_add(ttl) {
        None => Err(AuthError::TokenIssue),
        Some(exp) => {
            let claims = JwtClaims { sub: user.subject(), exp };
            match issue(&claims, config.signing_key()) {
                Some(token) => Ok(token),
                None => Err(AuthError::TokenIssue),
            }
        },
    }
}

/// Answers a login attempt, given the user that the store found under the
/// username, if any.
///
/// No such user and a wrong password are answered alike, with
/// [`AuthError::InvalidCredentials`]. A matching password is answered with a
/// fresh token for the user.
pub fn login(found: Option<&User>, password: &str, config: &AuthConfig, now: i64) -> (r: Result<
    String,
    AuthError,
>)
    ensures
        token_view(r) == login_outcome(
            found_view(found),
            password@,
            config.key(),
            config.ttl(),
            now as int,
        ),
        r matches Ok(token) ==> (found matches Some(user) && speaks_for(
            token@,
            user.id,
            config.key(),
            config.ttl(),
            now as int,
        )),
        config.ttl() > 0,
{
    proof {
        use_type_invariant(config);
    }
    match found {
        None => Err(AuthError::InvalidCredentials),
        Some(user) => {
            let check = verify_password(password, user.password.as_str());
            match credentials_verdict(check) {
                Err(e) => Err(e),
                Ok(()) => generate_jwt(user, config, now),
            }
        },
    }
}

/// The first half of a registration, given the user that the store found
/// under the username, if any.
///
/// A username that is taken is answered with [`AuthError::UsernameTaken`],
/// and no hash is computed. Otherwise the password is hashed, and the result
/// is the record to insert: the username as given, and a hash that verifies
/// against the password. For a free name and a password within the limit of
/// length there always is a record. The only other failure is
/// [`AuthError::Hashing`].
pub fn register(existing: Option<&User>, username: &str, password: &str) -> (r: Result<
    NewUser,
    AuthError,
>)
    ensures
        existing is Some ==> r matches Err(AuthError::UsernameTaken),
        existing is None && password@.len() <= MAX_PASSWORD_LENGTH ==> r is Ok,
        existing is None ==> match r {
            Ok(new_user) => new_user.username@ == username@ && phc_verification(
                password@,
                new_user.password@,
            ) == Some(true),
            Err(e) => e == AuthError::Hashing,
        },
        exists|salt: Seq<char>|
            request_view(r) == registration_request(
                found_view(existing),
                username@,
                hashing_result(#[trigger] argon2_hashing(password@, salt)),
            ),
{
    match existing {
        Some(_) => {
            assert(registration_request(
                found_view(existing),
                username@,
                hashing_result(argon2_hashing(password@, Seq::empty())),
            ) == Err::<NewUserView, AuthError>(AuthError::UsernameTaken));
            Err(AuthError::UsernameTaken)
        },
        None => new_user(username, hash_password(password)),
    }
}

/// The record to insert for a username that is free, given what hashing the
/// password gave.
pub fn new_user(username: &str, hashed: Result<String, HashError>) -> (r: Result<
    NewUser,
    AuthError,
>)
    ensures
        request_view(r) == registration_request(None, username@, hash_view(hashed)),
{
    match hashed {
        Ok(hash) => Ok(NewUser { username: username.to_owned(), password: hash }),
        Err(_) => Err(AuthError::Hashing),
    }
}

/// The second half of a registration, given what the store made of the insert.
///
/// The inserted user gets a token exactly as at login. A uniqueness violation
/// means that another registration of the same name came first, and is
/// answered with [`AuthError::UsernameTaken`]; any other failure of the store
/// with [`AuthError::Storage`].
pub fn complete_registration(
    inserted: Result<&User, StoreFailure>,
    config: &AuthConfig,
    now: i64,
) -> (r: Result<String, AuthError>)
    ensures
        token_view(r) == registration_outcome(
            inserted_view(inserted),
            config.key(),
            config.ttl(),
            now as int,
        ),
        r matches Ok(token) ==> (inserted matches Ok(user) && speaks_for(
            token@,
            user.id,
            config.key(),
            config.ttl(),
            now as int,
        )),
        config.ttl() > 0,
{
    proof {
        use_type_invariant(config);
    }
    match inserted {
        Ok(user) => generate_jwt(user, config, now),
        Err(StoreFailure::UniquenessViolation) => Err(AuthError::UsernameTaken),
        Err(StoreFailure::Unavailable) => Err(AuthError::Storage),
    }
}

/// A login with the password that the stored hash verifies, at a time from
/// which the lifetime can be counted, is answered with the token for the
/// user.
pub proof fn lemma_login_is_owed(
    user: UserView,
    password: Seq<char>,
    key: Seq<u8>,
    ttl: int,
    now: int,
)
    requires
        phc_verification(password, user.password) == Some(true),
        now + ttl <= i64::MAX,
    ensures
        login_outcome(Some(user), password, key, ttl, now) == Ok::<Seq<char>, AuthError>(
            jwt_encoding(uuid_text(user.id), now + ttl, key),
        ),
{
}

/// A registration whose user the store has inserted, at a time from which
/// the lifetime can be counted, is answered with the token for that user.
pub proof fn lemma_registration_is_owed(user: UserView, key: Seq<u8>, ttl: int, now: int)
    requires
        now + ttl <= i64::MAX,
    ensures
        registration_outcome(Ok(user), key, ttl, now) == Ok::<Seq<char>, AuthError>(
            jwt_encoding(uuid_text(user.id), now + ttl, key),
        ),
{
}

/// A login for a name that the store does not know and a login with a wrong
/// password for a name that it knows are answered with the same error, and so
/// with the same status and the same message.
pub proof fn lemma_login_failures_alike(
    user: UserView,
    wrong_password: Seq<char>,
    any_password: Seq<char>,
    key: Seq<u8>,
    ttl: int,
    now: int,
)
    requires
        phc_verification(wrong_password, user.password) == Some(false),
    ensures
        login_outcome(None, any_password, key, ttl, now) == login_outcome(
            Some(user),
            wrong_password,
            key,
            ttl,
            now,
        ),
        login_outcome(None, any_password, key, ttl, now) == Err::<Seq<char>, AuthError>(
            AuthError::InvalidCredentials,
        ),
        login_outcome(None, any_password, key, ttl, now)->Err_0.text() == login_outcome(
            Some(user),
            wrong_password,
            key,
            ttl,
            now,
        )->Err_0.text(),
        login_outcome(None, any_password, key, ttl, now)->Err_0.status() == login_outcome(
            Some(user),
            wrong_password,
            key,
            ttl,
            now,
        )->Err_0.status(),
{
}

} // verus!
