//! Bearer tokens: claims signed with a shared key (JWT, HS256), issued at login
//! and verified on every request against the key and the current time.

use jsonwebtoken::errors::ErrorKind;
use jsonwebtoken::{decode, encode, Algorithm, DecodingKey, EncodingKey, Header, Validation};
use serde_json::Value;
use vstd::prelude::*;

verus! {

/// The payload of a token: who it speaks for and until when.
#[derive(Clone, Debug, PartialEq, Eq)]
pub struct JwtClaims {
    /// The subject: the identifier of the user the token was issued to.
    pub sub: String,
    /// The expiry, in seconds since the epoch. The token is good strictly before it.
    pub exp: i64,
}

/// The mathematical value of [`JwtClaims`].
pub struct ClaimsView {
    pub sub: Seq<char>,
    pub exp: int,
}

impl View for JwtClaims {
    type V = ClaimsView;

    open spec fn view(&self) -> ClaimsView {
        ClaimsView { sub: self.sub@, exp: self.exp as int }
    }
}

/// Why a token was not accepted.
#[derive(Clone, Copy, Debug, PartialEq, Eq, Structural)]
pub enum TokenError {
    /// The token does not have the structure of a token, or its claims are not
    /// a subject and an expiry.
    Malformed,
    /// The signature is not the one the key gives for the token's content.
    InvalidSignature,
    /// The current time has reached the expiry.
    Expired,
}

/// What decoding a token under a key yields, before the expiry is looked at.
#[derive(Clone, Debug, PartialEq, Eq)]
pub enum Decoded {
    /// Structure and signature are in order; the two claims as far as the
    /// payload holds them (a text under `sub`, an integer under `exp`).
    Claims { sub: Option<String>, exp: Option<i64> },
    /// The signature does not match.
    BadSignature,
    /// Anything else: not three parts, not base64, not JSON, another algorithm.
    Unreadable,
}

/// The mathematical value of [`Decoded`].
pub enum DecodedView {
    Claims { sub: Option<Seq<char>>, exp: Option<int> },
    BadSignature,
    Unreadable,
}

impl View for Decoded {
    type V = DecodedView;

    open spec fn view(&self) -> DecodedView {
        match *self {
            Decoded::Claims { sub, exp } => DecodedView::Claims {
                sub: match sub {
                    Some(s) => Some(s@),
                    None => None,
                },
                exp: match exp {
                    Some(e) => Some(e as int),
                    None => None,
                },
            },
            Decoded::BadSignature => DecodedView::BadSignature,
            Decoded::Unreadable => DecodedView::Unreadable,
        }
    }
}

/// The error of the `jsonwebtoken` crate. Only its presence is read.
#[verifier::external_type_specification]
#[verifier::external_body]
pub struct ExJwtError(jsonwebtoken::errors::Error);

/// The token that the encoder makes of a subject, an expiry and a key: the
/// default header (HS256), the claims `sub` and `exp` as JSON, and the HMAC of
/// both under the key.
pub uninterp spec fn jwt_encoding(sub: Seq<char>, exp: int, key: Seq<u8>) -> Seq<char>;

/// What the decoder makes of a token under a key when it accepts HS256 only
/// and does not look at the clock.
pub uninterp spec fn jwt_decoding(token: Seq<char>, key: Seq<u8>) -> DecodedView;

/// What verification answers for a decoded token at the time `now`: the
/// signature comes first, then the structure of the claims, then the expiry.
pub open spec fn verdict(decoded: DecodedView, now: int) -> Result<ClaimsView, TokenError> {
    match decoded {
        DecodedView::BadSignature => Err(TokenError::InvalidSignature),
        DecodedView::Unreadable => Err(TokenError::Malformed),
        DecodedView::Claims { sub: Some(sub), exp: Some(exp) } => if now >= exp {
            Err(TokenError::Expired)
        } else {
            Ok(ClaimsView { sub, exp })
        },
        DecodedView::Claims { .. } => Err(TokenError::Malformed),
    }
}

/// The mathematical value of a verification result.
pub open spec fn verified_view(r: Result<JwtClaims, TokenError>) -> Result<ClaimsView, TokenError> {
    match r {
        Ok(claims) => Ok(claims@),
        Err(e) => Err(e),
    }
}

/// `jsonwebtoken::encode` with the default header, the claims `sub` and `exp`
/// in a JSON object, and `key` as an HMAC secret. The result depends on the
/// three arguments alone. With these arguments the encoder has nothing to
/// fail on: the key is of the header's family, a header and an object of a
/// text and an integer always serialise, and HMAC signing returns a value.
/// The last clause is the crate's round trip: the decoder recomputes the same
/// HMAC over the same text and parses the same JSON, so a token made here
/// decodes, under the same key, to its claims.
#[verifier::external_body]
fn encode_hs256(sub: &str, exp: i64, key: &[u8]) -> (outcome: Result<
    String,
    jsonwebtoken::errors::Error,
>)
    ensures
        outcome is Ok,
        outcome matches Ok(token) ==> token@ == jwt_encoding(sub@, exp as int, key@),
        outcome matches Ok(token) ==> jwt_decoding(token@, key@) == (DecodedView::Claims {
            sub: Some(sub@),
            exp: Some(exp as int),
        }),
{
    let mut claims = serde_json::Map::new();
    claims.insert(String::from("sub"), Value::from(sub));
    claims.insert(String::from("exp"), Value::from(exp));
    encode(&Header::default(), &claims, &EncodingKey::from_secret(key))
}

/// `jsonwebtoken::decode` into a JSON value, with `key` as an HMAC secret and a
/// validation that accepts HS256, requires no claim and validates neither the
/// expiry nor the audience, so that the result depends on the token and the
/// key alone and no claim but the two is looked at. Of the crate's errors only
/// `InvalidSignature` is told apart.
#[verifier::external_body]
fn decode_hs256(token: &str, key: &[u8]) -> (decoded: Decoded)
    ensures
        decoded@ == jwt_decoding(token@, key@),
{
    let mut rules = Validation::new(Algorithm::HS256);
    rules.validate_exp = false;
    rules.validate_aud = false;
    rules.required_spec_claims.clear();
    match decode::<Value>(token, &DecodingKey::from_secret(key), &rules) {
        Ok(data) => Decoded::Claims {
            sub: data.claims["sub"].as_str().map(String::from),
            exp: data.claims["exp"].as_i64(),
        },
        Err(e) => match e.kind() {
            ErrorKind::InvalidSignature => Decoded::BadSignature,
            _ => Decoded::Unreadable,
        },
    }
}

/// Turns the encoder's outcome into the token, or `None` where it failed.
pub fn issued(outcome: Result<String, jsonwebtoken::errors::Error>) -> (r: Option<String>)
    ensures
        outcome matches Ok(token) ==> r == Some(token),
        outcome is Err ==> r is None,
{
    match outcome {
        Ok(token) => Some(token),
        Err(_) => None,
    }
}

/// Decides on a decoded token at the time `now`.
///
/// A signature that does not match is [`TokenError::InvalidSignature`]; a token
/// that cannot be read, or whose claims lack the subject or the expiry, is
/// [`TokenError::Malformed`]; one whose expiry `now` has reached is
/// [`TokenError::Expired`]; otherwise the claims come back as they were decoded.
pub fn check_decoded(decoded: Decoded, now: i64) -> (r: Result<JwtClaims, TokenError>)
    ensures
        verified_view(r) == verdict(decoded@, now as int),
{
    match decoded {
        Decoded::BadSignature => Err(TokenError::InvalidSignature),
        Decoded::Unreadable => Err(TokenError::Malformed),
        Decoded::Claims { sub: Some(sub), exp: Some(exp) } => {
            if now >= exp {
                Err(TokenError::Expired)
            } else {
                Ok(JwtClaims { sub, exp })
            }
        },
        Decoded::Claims { .. } => Err(TokenError::Malformed),
    }
}

/// Issues the token for `claims` under the signing key `key`.
///
/// There always is a token, and it is a function of the claims and the key.
/// Verified under the same key, it gives back exactly `claims` at any time
/// before the expiry, and [`TokenError::Expired`] from the expiry on.
pub fn issue(claims: &JwtClaims, key: &[u8]) -> (r: Option<String>)
    ensures
        r matches Some(token) && token@ == jwt_encoding(claims.sub@, claims.exp as int, key@),
        r matches Some(token) ==> forall|now: int|
            now < claims.exp ==> #[trigger] verdict(jwt_decoding(token@, key@), now) == Ok::<
                ClaimsView,
                TokenError,
            >(claims@),
        r matches Some(token) ==> forall|now: int|
            now >= claims.exp ==> #[trigger] verdict(jwt_decoding(token@, key@), now) == Err::<
                ClaimsView,
                TokenError,
            >(TokenError::Expired),
{
    issued(encode_hs256(claims.sub.as_str(), claims.exp, key))
}

/// No token is accepted from its expiry on, whatever its signature: where
/// verification answers with claims, the time is before their expiry.
pub proof fn lemma_accepted_before_expiry(decoded: DecodedView, now: int)
    ensures
        verdict(decoded, now) matches Ok(claims) ==> now < claims.exp,
{
}

/// A token whose signature matches and whose claims are whole is refused as
/// expired from its expiry on.
pub proof fn lemma_expired_is_refused(sub: Seq<char>, exp: int, now: int)
    requires
        now >= exp,
    ensures
        verdict(DecodedView::Claims { sub: Some(sub), exp: Some(exp) }, now) == Err::<
            ClaimsView,
            TokenError,
        >(TokenError::Expired),
{
}

/// A signature that does not match is reported as such at any time, before
/// the expiry is looked at.
pub proof fn lemma_signature_comes_first(now: int)
    ensures
        verdict(DecodedView::BadSignature, now) == Err::<ClaimsView, TokenError>(
            TokenError::InvalidSignature,
        ),
{
}

/// Verifies `token` under the signing key `key` at the time `now`.
///
/// The answer is [`verdict`] on what the token decodes to under the key.
pub fn verify(token: &str, key: &[u8], now: i64) -> (r: Result<JwtClaims, TokenError>)
    ensures
        verified_view(r) == verdict(jwt_decoding(token@, key@), now as int),
{
    check_decoded(decode_hs256(token, key), now)
}

} // verus!
