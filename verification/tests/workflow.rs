use auth_service::domain::{AuthAPIError, Email, UserStore, UserStoreError};
use auth_service::routes::{login, logout, signup, verify_token, LoginRequest, SignupResponse};
use auth_service::services::{HashSetBannedTokenStore, HashmapUserStore};
use auth_service::utils::auth::validate_token;
use auth_service::ErrorResponse;

#[test]
fn should_return_201_if_valid_input() {
    let mut store = HashmapUserStore::new();
    let response = signup(&mut store, "test_2@test.com", "password123", true);

    let expected_response = SignupResponse {
        message: "User created successfully!".to_owned(),
    };
    assert_eq!(response, Ok(expected_response));
}

#[test]
fn signup_should_return_400_if_invalid_input() {
    let mut store = HashmapUserStore::new();

    let test_cases = [
        ("test@test.com", ""),
        ("", "password123"),
        ("test", "password123"),
        ("test2@test.com", "passwor"),
    ];

    for case in test_cases.iter() {
        let response = signup(&mut store, case.0, case.1, true);
        assert_eq!(
            response,
            Err(AuthAPIError::InvalidCredentials),
            "Failed for input: {:?}",
            case
        );
    }
}

#[test]
fn should_return_409_if_email_already_exists() {
    let mut store = HashmapUserStore::new();

    let response = signup(&mut store, "test_mail@test.com", "password123", true);
    assert!(response.is_ok());

    let response = signup(&mut store, "test_mail@test.com", "password123", true);
    assert_eq!(response, Err(AuthAPIError::UserAlreadyExists));
}

#[test]
fn login_should_return_400_if_invalid_input() {
    let store = HashmapUserStore::new();
    let response = login(&store, "invalid-email", "short");
    assert_eq!(response, Err(AuthAPIError::InvalidCredentials));
}

#[test]
fn should_return_401_if_incorrect_credentials() {
    let mut store = HashmapUserStore::new();
    let test_email = "test_2@test.com";

    let response = signup(&mut store, test_email, "password123", true);
    assert!(response.is_ok());

    let response = login(&store, test_email, "wrongpassword");
    assert_eq!(response, Err(AuthAPIError::IncorrectCredentials));
}

#[test]
fn login_unknown_email_is_not_found() {
    let store = HashmapUserStore::new();
    let response = login(&store, "nobody@test.com", "password123");
    assert_eq!(response, Err(AuthAPIError::NotFound));
}

#[test]
fn should_return_200_if_valid_credentials_and_2fa_disabled() {
    let mut store = HashmapUserStore::new();
    let email = "login_ok@example.com";

    let response = signup(&mut store, email, "password123", false);
    assert!(response.is_ok());

    let request = LoginRequest::new(email.to_owned(), "password123".to_owned());
    let token = login(&store, request.email(), request.password()).unwrap();
    assert!(!token.is_empty());
}

#[test]
fn should_return_400_if_jwt_cookie_missing() {
    let mut banned = HashSetBannedTokenStore::new();
    let response = logout(&mut banned, None);
    assert_eq!(response, Err(AuthAPIError::MissingToken));
}

#[test]
fn logout_should_return_401_if_invalid_token() {
    let mut banned = HashSetBannedTokenStore::new();
    let response = logout(&mut banned, Some("invalid"));
    assert_eq!(response, Err(AuthAPIError::InvalidToken));
}

#[test]
fn should_return_200_if_valid_jwt_cookie() {
    let mut store = HashmapUserStore::new();
    let mut banned = HashSetBannedTokenStore::new();
    let test_email = "test_2@test.com";

    let response = signup(&mut store, test_email, "password123", true);
    assert!(response.is_ok());

    let token = login(&store, test_email, "password123").unwrap();
    let response = logout(&mut banned, Some(token.as_str()));
    assert_eq!(response, Ok(()));
}

#[test]
fn should_return_400_if_logout_called_twice_in_a_row() {
    let mut store = HashmapUserStore::new();
    let mut banned = HashSetBannedTokenStore::new();
    let test_email = "test_2@test.com";

    let response = signup(&mut store, test_email, "password123", true);
    assert!(response.is_ok());

    let token = login(&store, test_email, "password123").unwrap();
    let first_logout_response = logout(&mut banned, Some(token.as_str()));
    assert_eq!(first_logout_response, Ok(()));
    // The transport layer cleared the client's token on the first logout,
    // so the second call arrives without one.
    let second_logout_response = logout(&mut banned, None);
    assert_eq!(second_logout_response, Err(AuthAPIError::MissingToken));
}

#[test]
fn logout_same_token_twice_is_unexpected_error() {
    let mut banned = HashSetBannedTokenStore::new();
    assert_eq!(logout(&mut banned, Some("test")), Ok(()));
    assert_eq!(
        logout(&mut banned, Some("test")),
        Err(AuthAPIError::UnexpectedError)
    );
}

#[test]
fn should_return_200_valid_token() {
    let mut store = HashmapUserStore::new();
    let banned = HashSetBannedTokenStore::new();
    let test_email = "test_2@test.com";

    let response = signup(&mut store, test_email, "password123", true);
    assert!(response.is_ok());

    let token = login(&store, test_email, "password123").unwrap();
    let response = verify_token(&banned, token.as_str());
    assert_eq!(response, Ok(()));
}

#[test]
fn verify_token_should_return_401_if_invalid_token() {
    let banned = HashSetBannedTokenStore::new();
    let response = verify_token(&banned, "invalid_token_example");
    assert_eq!(response, Err(AuthAPIError::IncorrectCredentials));
}

#[test]
fn should_return_401_if_banned_token() {
    let mut store = HashmapUserStore::new();
    let mut banned = HashSetBannedTokenStore::new();
    let test_email = "test@test.com";

    let response = signup(&mut store, test_email, "password123", true);
    assert!(response.is_ok());

    let token = login(&store, test_email, "password123").unwrap();
    let logout_response = logout(&mut banned, Some(token.as_str()));
    assert_eq!(logout_response, Ok(()));

    let response = verify_token(&banned, token.as_str());
    assert_eq!(response, Err(AuthAPIError::IncorrectCredentials));
}

#[test]
fn end_to_end_session() {
    let mut store = HashmapUserStore::new();
    let mut banned = HashSetBannedTokenStore::new();

    let response = signup(&mut store, "a@b.com", "password1", false);
    assert!(response.is_ok());

    let token = login(&store, "a@b.com", "password1").unwrap();
    assert_eq!(verify_token(&banned, token.as_str()), Ok(()));
    assert_eq!(logout(&mut banned, Some(token.as_str())), Ok(()));
    assert_eq!(
        verify_token(&banned, token.as_str()),
        Err(AuthAPIError::IncorrectCredentials)
    );
}

#[test]
fn rejected_signup_creates_no_account() {
    let mut store = HashmapUserStore::new();

    let response = signup(&mut store, "x@y.com", "short", false);
    assert_eq!(response, Err(AuthAPIError::InvalidCredentials));

    let email = Email::from_str("x@y.com").unwrap();
    assert_eq!(store.get_user(&email), Err(UserStoreError::UserNotFound));
}

#[test]
fn duplicate_register_exactly_one_succeeds() {
    let mut store = HashmapUserStore::new();

    let outcomes = [
        signup(&mut store, "race@test.com", "password123", false),
        signup(&mut store, "race@test.com", "password123", false),
    ];
    let successes = outcomes.iter().filter(|r| r.is_ok()).count();
    assert_eq!(successes, 1);
    assert_eq!(
        outcomes[1],
        Err(AuthAPIError::UserAlreadyExists)
    );

    let email = Email::from_str("race@test.com").unwrap();
    assert!(store.get_user(&email).is_ok());
}

#[test]
fn issued_token_is_the_stub_token() {
    let mut store = HashmapUserStore::new();
    let response = signup(&mut store, "stub@test.com", "password123", false);
    assert!(response.is_ok());

    let token = login(&store, "stub@test.com", "password123").unwrap();
    assert_eq!(token, "test");
}

#[test]
fn validate_token_is_ascii_case_insensitive() {
    assert_eq!(validate_token("test"), Ok(true));
    assert_eq!(validate_token("TEST"), Ok(true));
    assert_eq!(validate_token("TeSt"), Ok(true));
    assert_eq!(validate_token("tests"), Ok(false));
    assert_eq!(validate_token("tes"), Ok(false));
    assert_eq!(validate_token(""), Ok(false));
    assert_eq!(validate_token("abcd"), Ok(false));
}

#[test]
fn error_response_carries_message() {
    let body = ErrorResponse {
        error: "Invalid credentials".to_owned(),
    };
    assert_eq!(body.error, "Invalid credentials");
}
