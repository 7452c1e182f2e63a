use todo_squeel::password::{
    checked, hash_password, hash_with_salt, hashed, verify_password, HashError, MAX_PASSWORD_LENGTH,
    MIN_SALT_BYTES,
};

#[test]
fn hash_then_verify_accepts_the_password() {
    let hash = hash_password("secret1").unwrap();
    assert_eq!(verify_password("secret1", &hash), Ok(true));
}

#[test]
fn verify_rejects_another_password() {
    let hash = hash_password("secret1").unwrap();
    assert_eq!(verify_password("wrong", &hash), Ok(false));
    assert_eq!(verify_password("secret", &hash), Ok(false));
    assert_eq!(verify_password("", &hash), Ok(false));
}

#[test]
fn hashing_twice_gives_two_hashes_that_both_verify() {
    let first = hash_password("correct horse").unwrap();
    let second = hash_password("correct horse").unwrap();
    assert_ne!(first, second);
    assert_eq!(verify_password("correct horse", &first), Ok(true));
    assert_eq!(verify_password("correct horse", &second), Ok(true));
}

#[test]
fn hash_is_a_self_describing_argon2_string() {
    let hash = hash_password("secret1").unwrap();
    assert!(hash.starts_with("$argon2id$v=19$m=19456,t=2,p=1$"));
    assert_eq!(hash.split('$').count(), 6);
}

#[test]
fn hash_accepts_any_content() {
    for password in ["", " ", "päßwörd", "a\0b", "🔑🔑🔑"] {
        let hash = hash_password(password).unwrap();
        assert_eq!(verify_password(password, &hash), Ok(true));
    }
}

#[test]
fn verify_fails_on_a_malformed_hash() {
    assert_eq!(verify_password("secret1", "secret1"), Err(HashError::MalformedHash));
    assert_eq!(verify_password("secret1", ""), Err(HashError::MalformedHash));
    assert_eq!(verify_password("secret1", "$argon2id$v=19$m=19456,t=2,p=1$!!!$???"), Err(HashError::MalformedHash));
}

#[test]
fn verify_against_a_known_hash() {
    let known = "$argon2id$v=19$m=16,t=2,p=1$c29tZXNhbHQ$6ckCB0tnVFMaOgvlGeW69ASzDOabPwYetCILCCsm56U";
    let mine = hash_password("password").unwrap();
    assert_eq!(verify_password("password", &mine), Ok(true));
    // A well-formed hash of another password under other parameters: the
    // parameters are read from the string, and the digest does not match.
    assert_eq!(verify_password("not the password", known), Ok(false));
}

#[test]
fn outcome_of_hashing_is_carried_over() {
    assert_eq!(hashed(Ok(String::from("$argon2id$x"))), Ok(String::from("$argon2id$x")));
    assert_eq!(hashed(Err(argon2::password_hash::Error::Password)), Err(HashError::Hashing));
    assert_eq!(hashed(Err(argon2::password_hash::Error::Crypto)), Err(HashError::Hashing));
}

#[test]
fn outcome_of_checking_is_carried_over() {
    assert_eq!(checked(Ok(true)), Ok(true));
    assert_eq!(checked(Ok(false)), Ok(false));
    assert_eq!(checked(Err(argon2::password_hash::Error::PhcStringField)), Err(HashError::MalformedHash));
}

#[test]
fn hash_with_salt_is_a_function_of_password_and_salt() {
    let first = hash_with_salt("secret1", "c29tZXNhbHQ").unwrap();
    let second = hash_with_salt("secret1", "c29tZXNhbHQ").unwrap();
    assert_eq!(first, second);
    assert!(first.starts_with("$argon2id$v=19$m=19456,t=2,p=1$c29tZXNhbHQ$"));
    assert_ne!(first, hash_with_salt("secret2", "c29tZXNhbHQ").unwrap());
    assert_ne!(first, hash_with_salt("secret1", "b3RoZXJzYWx0").unwrap());
    assert_eq!(verify_password("secret1", &first), Ok(true));
    assert_eq!(verify_password("secret2", &first), Ok(false));
}

#[test]
fn hash_with_salt_agrees_with_the_argon2_crate() {
    let salt = argon2::password_hash::Salt::from_b64("c29tZXNhbHQ").unwrap();
    let expected =
        argon2::PasswordHash::generate(argon2::Argon2::default(), "secret1", salt).unwrap().to_string();
    assert_eq!(hash_with_salt("secret1", "c29tZXNhbHQ"), Ok(expected));
}

#[test]
fn hash_with_what_is_no_salt_fails() {
    assert_eq!(hash_with_salt("secret1", ""), Err(HashError::Hashing));
    assert_eq!(hash_with_salt("secret1", "abc"), Err(HashError::Hashing));
    assert_eq!(hash_with_salt("secret1", "not a salt!"), Err(HashError::Hashing));
    assert_eq!(hash_with_salt("secret1", "c29tZXNhbHQ$"), Err(HashError::Hashing));
}

#[test]
fn hash_password_uses_a_salt_of_its_own() {
    let hash = hash_password("secret1").unwrap();
    let salt = hash.split('$').nth(4).unwrap();
    assert_eq!(salt.len(), 22);
    assert_eq!(hash_with_salt("secret1", salt), Ok(hash.clone()));
}

#[test]
fn salt_of_eight_bytes_is_enough_and_seven_are_not() {
    assert_eq!(MIN_SALT_BYTES, 8);
    // "somesalt" and "somesal" in B64.
    assert!(hash_with_salt("secret1", "c29tZXNhbHQ").is_ok());
    assert_eq!(hash_with_salt("secret1", "c29tZXNhbA"), Err(HashError::Hashing));
    assert_eq!(hash_with_salt("secret1", "abcd"), Err(HashError::Hashing));
}

#[test]
fn hashing_is_owed_whatever_the_password_holds() {
    assert_eq!(MAX_PASSWORD_LENGTH, 0x3fff_ffff);
    let long = "x".repeat(100_000);
    let wide = "\u{10ffff}".repeat(10_000);
    for password in ["", "\0", "$argon2id$v=19$", "\u{202e}drowssap", long.as_str(), wide.as_str()] {
        let hash = hash_password(password).unwrap();
        assert_eq!(verify_password(password, &hash), Ok(true));
        assert!(hash_with_salt(password, "c29tZXNhbHQ").is_ok());
    }
}
