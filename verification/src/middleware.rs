//! What every protected request has to pass: find the `Authorization` header,
//! take the bearer token out of it, verify the token, and hand the identity on.
//! The first step that fails ends the request.

use crate::error::AuthError;
use crate::password::phc_verification;
use crate::service::{login_outcome, speaks_for};
use crate::token::jwt_encoding;
use crate::user::UserView;
use crate::token::{jwt_decoding, verdict, verify, ClaimsView, JwtClaims, TokenError};
use crate::user::uuid_text;
use vstd::prelude::*;
use vstd::string::StrSliceExecFns;

verus! {

/// The `Authorization` header of a request, as far as it is read here.
#[derive(Clone, Debug, PartialEq, Eq)]
pub enum AuthorizationHeader {
    /// The request has no such header.
    Absent,
    /// The header is there, but its value is not text.
    Opaque,
    /// The value of the header.
    Text(String),
}

/// The mathematical value of an [`AuthorizationHeader`].
pub enum HeaderView {
    Absent,
    Opaque,
    Text(Seq<char>),
}

impl View for AuthorizationHeader {
    type V = HeaderView;

    open spec fn view(&self) -> HeaderView {
        match *self {
            AuthorizationHeader::Absent => HeaderView::Absent,
            AuthorizationHeader::Opaque => HeaderView::Opaque,
            AuthorizationHeader::Text(value) => HeaderView::Text(value@),
        }
    }
}

/// Who a verified request comes from. It lives as long as the request.
#[derive(Clone, Debug, PartialEq, Eq)]
pub struct AuthenticatedIdentity {
    /// The subject of the verified token.
    pub subject: String,
}

/// The name of the header that carries the token.
pub const AUTHORIZATION: &'static str = "Authorization";

/// What the value of the header starts with.
pub const BEARER: &'static str = "Bearer ";

/// The seven characters that a header value has to start with, in this very
/// case and with one space at the end.
pub open spec fn bearer_prefix() -> Seq<char> {
    seq!['B', 'e', 'a', 'r', 'e', 'r', ' ']
}

/// The token in a header value: what follows the prefix, where the value
/// starts with the prefix.
pub open spec fn bearer_token(value: Seq<char>) -> Option<Seq<char>> {
    if bearer_prefix().is_prefix_of(value) {
        Some(value.skip(7))
    } else {
        None
    }
}

/// The first two steps: the token of a header, or why there is none.
pub open spec fn extraction(header: HeaderView) -> Result<Seq<char>, AuthError> {
    match header {
        HeaderView::Absent => Err(AuthError::MissingAuth),
        HeaderView::Opaque => Err(AuthError::MalformedAuth),
        HeaderView::Text(value) => match bearer_token(value) {
            Some(token) => Ok(token),
            None => Err(AuthError::MalformedAuth),
        },
    }
}

/// The last step: the subject of the claims, or [`AuthError::Unauthorized`]
/// for whatever reason the token was refused.
pub open spec fn attachment(verified: Result<ClaimsView, TokenError>) -> Result<
    Seq<char>,
    AuthError,
> {
    match verified {
        Ok(claims) => Ok(claims.sub),
        Err(_) => Err(AuthError::Unauthorized),
    }
}

/// All four steps: the subject that a request with this header speaks for
/// under the key `key` at the time `now`, or the error of the first step that
/// fails.
pub open spec fn admission(header: HeaderView, key: Seq<u8>, now: int) -> Result<
    Seq<char>,
    AuthError,
> {
    match extraction(header) {
        Err(e) => Err(e),
        Ok(token) => attachment(verdict(jwt_decoding(token, key), now)),
    }
}

/// The mathematical value of the result of an admission.
pub open spec fn identity_view(r: Result<AuthenticatedIdentity, AuthError>) -> Result<
    Seq<char>,
    AuthError,
> {
    match r {
        Ok(identity) => Ok(identity.subject@),
        Err(e) => Err(e),
    }
}

/// Whether `value` starts with `Bearer `.
fn starts_with_bearer(value: &str) -> (starts: bool)
    ensures
        starts == bearer_prefix().is_prefix_of(value@),
{
    proof {
        reveal_strlit("Bearer ");
    }
    if value.unicode_len() < 7 {
        return false;
    }
    let mut i: usize = 0;
    while i < 7
        invariant
            i <= 7,
            value@.len() >= 7,
            BEARER@ == bearer_prefix(),
            forall|j: int| 0 <= j < i ==> value@[j] == bearer_prefix()[j],
        decreases 7 - i,
    {
        if value.get_char(i) != BEARER.get_char(i) {
            return false;
        }
        i += 1;
    }
    true
}

/// Finds the header and takes the token out of it.
///
/// A request without the header is answered with [`AuthError::MissingAuth`];
/// a value that is not text, or does not start with `Bearer `, with
/// [`AuthError::MalformedAuth`]. Otherwise the token is all that follows the
/// prefix, which may be nothing.
pub fn extract_bearer<'a>(header: &'a AuthorizationHeader) -> (r: Result<&'a str, AuthError>)
    ensures
        match r {
            Ok(token) => extraction(header@) == Ok::<Seq<char>, AuthError>(token@),
            Err(e) => extraction(header@) == Err::<Seq<char>, AuthError>(e),
        },
{
    match header {
        AuthorizationHeader::Absent => Err(AuthError::MissingAuth),
        AuthorizationHeader::Opaque => Err(AuthError::MalformedAuth),
        AuthorizationHeader::Text(value) => {
            let value = value.as_str();
            if starts_with_bearer(value) {
                let length = value.unicode_len();
                Ok(value.substring_char(7, length))
            } else {
                Err(AuthError::MalformedAuth)
            }
        },
    }
}

/// Hands the identity on: the subject of the verified claims. A token that
/// was refused, for whatever reason, is answered with
/// [`AuthError::Unauthorized`].
pub fn attach(verified: Result<JwtClaims, TokenError>) -> (r: Result<
    AuthenticatedIdentity,
    AuthError,
>)
    ensures
        identity_view(r) == attachment(
            match verified {
                Ok(claims) => Ok(claims@),
                Err(e) => Err(e),
            },
        ),
{
    match verified {
        Ok(claims) => Ok(AuthenticatedIdentity { subject: claims.sub }),
        Err(_) => Err(AuthError::Unauthorized),
    }
}

/// Checks a request: the identity it speaks for under the signing key `key`
/// at the time `now`, or the error that ends it.
pub fn auth_middleware(header: &AuthorizationHeader, key: &[u8], now: i64) -> (r: Result<
    AuthenticatedIdentity,
    AuthError,
>)
    ensures
        identity_view(r) == admission(header@, key@, now as int),
{
    match extract_bearer(header) {
        Err(e) => Err(e),
        Ok(token) => attach(verify(token, key, now)),
    }
}

/// A request that carries, after `Bearer `, a token that speaks for a user is
/// admitted as that user at any time before the token expires.
pub proof fn lemma_issued_token_admits(
    token: Seq<char>,
    id: u128,
    key: Seq<u8>,
    ttl: int,
    now: int,
    at: int,
)
    requires
        speaks_for(token, id, key, ttl, now),
        at < now + ttl,
    ensures
        admission(HeaderView::Text(bearer_prefix() + token), key, at) == Ok::<
            Seq<char>,
            AuthError,
        >(uuid_text(id)),
{
    let value = bearer_prefix() + token;
    assert(value.skip(7) =~= token);
}

/// Login, then a request: with the password that the stored hash verifies,
/// at a time from which the lifetime can be counted, login answers with a
/// token; where that token speaks for the user, as every token issued does,
/// a request that carries it after `Bearer ` is admitted as the user at any
/// time before it expires.
pub proof fn lemma_login_then_request(
    user: UserView,
    password: Seq<char>,
    key: Seq<u8>,
    ttl: int,
    now: int,
    at: int,
)
    requires
        phc_verification(password, user.password) == Some(true),
        now + ttl <= i64::MAX,
        speaks_for(jwt_encoding(uuid_text(user.id), now + ttl, key), user.id, key, ttl, now),
        at < now + ttl,
    ensures
        login_outcome(Some(user), password, key, ttl, now) matches Ok(token) && admission(
            HeaderView::Text(bearer_prefix() + token),
            key,
            at,
        ) == Ok::<Seq<char>, AuthError>(uuid_text(user.id)),
{
    lemma_issued_token_admits(
        jwt_encoding(uuid_text(user.id), now + ttl, key),
        user.id,
        key,
        ttl,
        now,
        at,
    );
}

/// A request is never admitted from the expiry of its token on: where it is
/// admitted, its header carried a token that decoded to claims which expire
/// after `now`, and it is admitted as their subject.
pub proof fn lemma_admitted_before_expiry(header: HeaderView, key: Seq<u8>, now: int)
    requires
        admission(header, key, now) is Ok,
    ensures
        header matches HeaderView::Text(value) && bearer_token(value) matches Some(token)
            && verdict(jwt_decoding(token, key), now) matches Ok(claims) && now < claims.exp
            && admission(header, key, now) == Ok::<Seq<char>, AuthError>(claims.sub),
{
}

} // verus!
