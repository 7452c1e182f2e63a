use todo_squeel::error::{handle_any_error, AppError, AuthError, INTERNAL_SERVER_ERROR};

const ALL: [AuthError; 10] = [
    AuthError::Validation,
    AuthError::InvalidCredentials,
    AuthError::UsernameTaken,
    AuthError::MissingAuth,
    AuthError::MalformedAuth,
    AuthError::Unauthorized,
    AuthError::Hashing,
    AuthError::MalformedHash,
    AuthError::Storage,
    AuthError::TokenIssue,
];

#[test]
fn status_by_kind() {
    assert_eq!(AuthError::Validation.status_code(), 400);
    assert_eq!(AuthError::InvalidCredentials.status_code(), 401);
    assert_eq!(AuthError::MissingAuth.status_code(), 401);
    assert_eq!(AuthError::MalformedAuth.status_code(), 401);
    assert_eq!(AuthError::Unauthorized.status_code(), 401);
    assert_eq!(AuthError::UsernameTaken.status_code(), 409);
    assert_eq!(AuthError::Hashing.status_code(), 500);
    assert_eq!(AuthError::MalformedHash.status_code(), 500);
    assert_eq!(AuthError::Storage.status_code(), 500);
    assert_eq!(AuthError::TokenIssue.status_code(), 500);
}

#[test]
fn message_by_kind() {
    assert_eq!(AuthError::Validation.message(), "Invalid username or password format");
    assert_eq!(AuthError::InvalidCredentials.message(), "Invalid username or password");
    assert_eq!(AuthError::UsernameTaken.message(), "User already exists");
    assert_eq!(AuthError::MissingAuth.message(), "Missing authorization header");
    assert_eq!(AuthError::MalformedAuth.message(), "Invalid authorization header");
    assert_eq!(AuthError::Unauthorized.message(), "Could not decode token");
}

#[test]
fn internal_failures_share_one_message() {
    for error in [AuthError::Hashing, AuthError::MalformedHash, AuthError::Storage, AuthError::TokenIssue] {
        assert_eq!(error.message(), "Internal server error");
        assert_eq!(error.status_code(), INTERNAL_SERVER_ERROR);
    }
}

#[test]
fn response_carries_status_and_message() {
    for error in ALL {
        let response = error.into_app_error();
        assert_eq!(response.code, Some(error.status_code()));
        assert_eq!(response.message, error.message());
        assert_eq!(response.status_code(), error.status_code());
    }
    assert_eq!(
        AuthError::UsernameTaken.into_app_error(),
        AppError { message: String::from("User already exists"), code: Some(409) }
    );
}

#[test]
fn response_without_a_status_is_an_internal_error() {
    let response = AppError { message: String::from("Error creating user"), code: None };
    assert_eq!(response.status_code(), 500);
    let named = AppError { message: String::from("Missing authorization header"), code: Some(401) };
    assert_eq!(named.status_code(), 401);
}

#[test]
fn unhandled_failure_gives_nothing_away() {
    let response = handle_any_error("connection refused: postgres://admin:hunter2@db/users");
    assert_eq!(response.code, Some(500));
    assert_eq!(response.message, "Internal server error");
    assert_eq!(handle_any_error(""), response);
}
