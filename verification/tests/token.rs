use todo_squeel::token::{check_decoded, issue, issued, verify, Decoded, JwtClaims, TokenError};

fn claims(sub: &str, exp: i64) -> JwtClaims {
    JwtClaims { sub: String::from(sub), exp }
}

#[test]
fn issue_then_verify_gives_the_claims_back() {
    let token = issue(&claims("alice", 2_000), b"key").unwrap();
    let back = verify(&token, b"key", 1_999).unwrap();
    assert_eq!(back.sub, "alice");
    assert_eq!(back.exp, 2_000);
}

#[test]
fn issue_is_deterministic() {
    let first = issue(&claims("alice", 2_000), b"key").unwrap();
    let second = issue(&claims("alice", 2_000), b"key").unwrap();
    assert_eq!(first, second);
    assert_ne!(first, issue(&claims("alice", 2_001), b"key").unwrap());
    assert_ne!(first, issue(&claims("bob", 2_000), b"key").unwrap());
    assert_ne!(first, issue(&claims("alice", 2_000), b"other").unwrap());
}

#[test]
fn issue_gives_a_known_token() {
    let token = issue(&claims("alice", 2_000), b"secret").unwrap();
    assert_eq!(token.split('.').count(), 3);
    assert!(token.starts_with("eyJ0eXAiOiJKV1QiLCJhbGciOiJIUzI1NiJ9."));
    let expected = jsonwebtoken::encode(
        &jsonwebtoken::Header::default(),
        &serde_json::from_str::<serde_json::Value>("{\"sub\":\"alice\",\"exp\":2000}").unwrap(),
        &jsonwebtoken::EncodingKey::from_secret(b"secret"),
    )
    .unwrap();
    assert_eq!(token, expected);
}

#[test]
fn verify_with_another_key_is_an_invalid_signature() {
    let token = issue(&claims("alice", 2_000), b"key one").unwrap();
    assert_eq!(verify(&token, b"key two", 0).unwrap_err(), TokenError::InvalidSignature);
    assert_eq!(verify(&token, b"", 0).unwrap_err(), TokenError::InvalidSignature);
    // The signature is looked at before the expiry.
    assert_eq!(verify(&token, b"key two", 5_000).unwrap_err(), TokenError::InvalidSignature);
}

#[test]
fn verify_expires_at_the_expiry() {
    let token = issue(&claims("alice", 2_000), b"key").unwrap();
    assert!(verify(&token, b"key", 1_999).is_ok());
    assert_eq!(verify(&token, b"key", 2_000).unwrap_err(), TokenError::Expired);
    assert_eq!(verify(&token, b"key", 2_001).unwrap_err(), TokenError::Expired);
    assert_eq!(verify(&token, b"key", i64::MAX).unwrap_err(), TokenError::Expired);
    assert!(verify(&token, b"key", i64::MIN).is_ok());
}

#[test]
fn verify_knows_no_leeway() {
    let token = issue(&claims("alice", 1_000_000), b"key").unwrap();
    assert_eq!(verify(&token, b"key", 1_000_030).unwrap_err(), TokenError::Expired);
}

#[test]
fn verify_does_not_read_the_clock() {
    // Long expired by the wall clock, and still good at the time given.
    let token = issue(&claims("alice", 10), b"key").unwrap();
    assert_eq!(verify(&token, b"key", 9).unwrap().sub, "alice");
    // Far in the future by the wall clock, and expired at the time given.
    let token = issue(&claims("alice", 9_000_000_000), b"key").unwrap();
    assert_eq!(verify(&token, b"key", 9_000_000_000).unwrap_err(), TokenError::Expired);
}

#[test]
fn verify_round_trips_unusual_claims() {
    for (sub, exp) in [("", 1), ("a\"b\\c", 2), ("ünï©ødé \u{1F600}", 3), ("line\nbreak", i64::MAX), ("neg", -5)] {
        let token = issue(&claims(sub, exp), b"k").unwrap();
        let back = verify(&token, b"k", exp - 1).unwrap();
        assert_eq!(back.sub, sub);
        assert_eq!(back.exp, exp);
    }
    let token = issue(&claims("min", i64::MIN), b"k").unwrap();
    assert_eq!(verify(&token, b"k", i64::MIN).unwrap_err(), TokenError::Expired);
}

#[test]
fn verify_rejects_what_is_no_token() {
    for text in ["", "a.jwt.token", "abc", "..", "a.b", "a.b.c.d"] {
        assert_eq!(verify(text, b"key", 0).unwrap_err(), TokenError::Malformed);
    }
}

#[test]
fn verify_rejects_a_tampered_token() {
    let token = issue(&claims("alice", 2_000), b"key").unwrap();
    let forged = issue(&claims("mallory", 2_000), b"key").unwrap();
    let parts: Vec<&str> = token.split('.').collect();
    let other: Vec<&str> = forged.split('.').collect();
    let spliced = format!("{}.{}.{}", parts[0], other[1], parts[2]);
    assert_eq!(verify(&spliced, b"key", 0).unwrap_err(), TokenError::InvalidSignature);
    let mut flipped = token.clone();
    let last = flipped.pop().unwrap();
    flipped.push(if last == 'A' { 'B' } else { 'A' });
    assert_eq!(verify(&flipped, b"key", 0).unwrap_err(), TokenError::InvalidSignature);
}

#[test]
fn verify_rejects_signed_claims_of_another_shape() {
    let key = jsonwebtoken::EncodingKey::from_secret(b"key");
    let header = jsonwebtoken::Header::default();
    for payload in [
        "{\"sub\":\"alice\"}",
        "{\"exp\":2000}",
        "{\"sub\":7,\"exp\":2000}",
        "{\"sub\":\"alice\",\"exp\":\"2000\"}",
        "{\"sub\":\"alice\",\"exp\":2000.5}",
        "{}",
        "[1,2]",
    ] {
        let value: serde_json::Value = serde_json::from_str(payload).unwrap();
        let token = jsonwebtoken::encode(&header, &value, &key).unwrap();
        assert_eq!(verify(&token, b"key", 0).unwrap_err(), TokenError::Malformed);
    }
    let extra: serde_json::Value =
        serde_json::from_str("{\"sub\":\"alice\",\"exp\":2000,\"role\":\"admin\"}").unwrap();
    let token = jsonwebtoken::encode(&header, &extra, &key).unwrap();
    assert_eq!(verify(&token, b"key", 0).unwrap().sub, "alice");
}

#[test]
fn verify_rejects_another_algorithm() {
    let header = jsonwebtoken::Header::new(jsonwebtoken::Algorithm::HS512);
    let value: serde_json::Value = serde_json::from_str("{\"sub\":\"alice\",\"exp\":2000}").unwrap();
    let token =
        jsonwebtoken::encode(&header, &value, &jsonwebtoken::EncodingKey::from_secret(b"key")).unwrap();
    assert_eq!(verify(&token, b"key", 0).unwrap_err(), TokenError::Malformed);
}

#[test]
fn keys_that_hmac_pads_alike_sign_alike() {
    let token = issue(&claims("alice", 2_000), b"secret").unwrap();
    assert_eq!(verify(&token, b"secret\0", 0).unwrap().sub, "alice");
}

#[test]
fn check_decoded_decides_each_case() {
    let good = Decoded::Claims { sub: Some(String::from("alice")), exp: Some(100) };
    let back = check_decoded(good, 99).unwrap();
    assert_eq!((back.sub.as_str(), back.exp), ("alice", 100));
    let due = Decoded::Claims { sub: Some(String::from("alice")), exp: Some(100) };
    assert_eq!(check_decoded(due, 100).unwrap_err(), TokenError::Expired);
    let no_sub = Decoded::Claims { sub: None, exp: Some(100) };
    assert_eq!(check_decoded(no_sub, 0).unwrap_err(), TokenError::Malformed);
    let no_exp = Decoded::Claims { sub: Some(String::from("alice")), exp: None };
    assert_eq!(check_decoded(no_exp, 0).unwrap_err(), TokenError::Malformed);
    let neither = Decoded::Claims { sub: None, exp: None };
    assert_eq!(check_decoded(neither, 0).unwrap_err(), TokenError::Malformed);
    assert_eq!(check_decoded(Decoded::BadSignature, 0).unwrap_err(), TokenError::InvalidSignature);
    assert_eq!(check_decoded(Decoded::BadSignature, i64::MAX).unwrap_err(), TokenError::InvalidSignature);
    assert_eq!(check_decoded(Decoded::Unreadable, 0).unwrap_err(), TokenError::Malformed);
}

#[test]
fn issued_keeps_the_token_and_drops_the_error() {
    assert_eq!(issued(Ok(String::from("a.b.c"))), Some(String::from("a.b.c")));
    let failure = jsonwebtoken::decode_header("no token").unwrap_err();
    assert_eq!(issued(Err(failure)), None);
}

#[test]
fn verify_looks_at_no_claim_but_the_two() {
    let key = jsonwebtoken::EncodingKey::from_secret(b"key");
    let header = jsonwebtoken::Header::default();
    for payload in [
        "{\"sub\":\"alice\",\"exp\":2000,\"aud\":\"somebody else\"}",
        "{\"sub\":\"alice\",\"exp\":2000,\"aud\":[\"a\",\"b\"]}",
        "{\"sub\":\"alice\",\"exp\":2000,\"iss\":\"anybody\"}",
        "{\"sub\":\"alice\",\"exp\":2000,\"nbf\":99999999999}",
        "{\"sub\":\"alice\",\"exp\":2000,\"iat\":-5,\"jti\":null}",
    ] {
        let value: serde_json::Value = serde_json::from_str(payload).unwrap();
        let token = jsonwebtoken::encode(&header, &value, &key).unwrap();
        let claims = verify(&token, b"key", 1_999).unwrap();
        assert_eq!((claims.sub.as_str(), claims.exp), ("alice", 2_000));
        assert_eq!(verify(&token, b"key", 2_000).unwrap_err(), TokenError::Expired);
        assert_eq!(verify(&token, b"yek", 0).unwrap_err(), TokenError::InvalidSignature);
    }
}
