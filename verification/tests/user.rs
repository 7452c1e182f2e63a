use todo_squeel::error::AuthError;
use todo_squeel::password::hash_password;
use todo_squeel::user::{LoginBody, User, MIN_PASSWORD_LENGTH, MIN_USERNAME_LENGTH};

fn body(username: &str, password: &str) -> LoginBody {
    LoginBody { username: String::from(username), password: String::from(password) }
}

#[test]
fn validate_accepts_long_enough_fields() {
    assert_eq!(body("alice", "secret1").validate(), Ok(()));
    assert_eq!(body("a", "123456").validate(), Ok(()));
}

#[test]
fn validate_rejects_short_fields() {
    assert_eq!(body("", "secret1").validate(), Err(AuthError::Validation));
    assert_eq!(body("alice", "12345").validate(), Err(AuthError::Validation));
    assert_eq!(body("alice", "").validate(), Err(AuthError::Validation));
    assert_eq!(body("", "").validate(), Err(AuthError::Validation));
}

#[test]
fn validate_counts_characters_not_bytes() {
    // Five characters in ten bytes are still too short, six are enough.
    assert_eq!(body("alice", "äääää").validate(), Err(AuthError::Validation));
    assert_eq!(body("alice", "ääääää").validate(), Ok(()));
    assert_eq!(body("é", "secret1").validate(), Ok(()));
}

#[test]
fn validate_bounds_are_one_and_six() {
    assert_eq!(MIN_USERNAME_LENGTH, 1);
    assert_eq!(MIN_PASSWORD_LENGTH, 6);
}

#[test]
fn subject_is_the_hyphenated_id() {
    let user = User {
        id: 0x67e55044_10b1_426f_9247_bb680e5fe0c8,
        username: String::from("alice"),
        password: String::new(),
    };
    assert_eq!(user.subject(), "67e55044-10b1-426f-9247-bb680e5fe0c8");
    let zero = User { id: 0, username: String::new(), password: String::new() };
    assert_eq!(zero.subject(), "00000000-0000-0000-0000-000000000000");
    let max = User { id: u128::MAX, username: String::new(), password: String::new() };
    assert_eq!(max.subject(), "ffffffff-ffff-ffff-ffff-ffffffffffff");
    let one = User { id: 1, username: String::new(), password: String::new() };
    assert_eq!(one.subject(), "00000000-0000-0000-0000-000000000001");
    let mixed = User { id: 0xA1A2A3A4_B1B2_C1C2_D1D2_D3D4D5D6D7D8, username: String::new(), password: String::new() };
    assert_eq!(mixed.subject(), "a1a2a3a4-b1b2-c1c2-d1d2-d3d4d5d6d7d8");
}

#[test]
fn subject_matches_the_uuid_crate() {
    for id in [0u128, 1, 0xdead_beef, u128::MAX / 3, 1 << 127] {
        let user = User { id, username: String::new(), password: String::new() };
        assert_eq!(user.subject(), uuid::Uuid::from_u128(id).to_string());
        assert_eq!(uuid::Uuid::parse_str(&user.subject()).unwrap().as_u128(), id);
    }
}

#[test]
fn user_verifies_its_own_password() {
    let user = User {
        id: 1,
        username: String::from("alice"),
        password: hash_password("secret1").unwrap(),
    };
    assert!(user.verify_password("secret1"));
    assert!(!user.verify_password("secret2"));
}

#[test]
fn user_with_a_broken_hash_matches_nothing() {
    let user = User { id: 1, username: String::from("alice"), password: String::from("secret1") };
    assert!(!user.verify_password("secret1"));
    assert!(!user.verify_password(""));
}
