use auth_service::domain::Email;
use fake::faker::internet::en::{FreeEmail, SafeEmail};
use fake::Fake;

#[test]
fn test_email_valid() {
    let val: String = FreeEmail().fake();
    let email: Result<Email, String> = Email::from_str(val.as_str());
    assert!(email.is_ok());
}

#[test]
fn test_safe_email_valid() {
    let val: String = SafeEmail().fake();
    let email: Result<Email, String> = Email::from_str(val.as_str());
    assert!(email.is_ok());
}

#[test]
fn test_specific_invalid_cases() {
    let invalid_cases = vec![
        "plaintext",
        "@example.com",
        "user@",
        "user @example.com",
        "user@.com",
        "",
    ];

    for case in invalid_cases {
        assert!(
            Email::from_str(case).is_err(),
            "Expected '{}' to be invalid",
            case
        );
    }
}

#[test]
fn test_specific_valid_cases() {
    let valid_cases = vec![
        "user@example.com",
        "test.email@domain.co.uk",
        "first+last@company.com",
    ];

    for case in valid_cases {
        assert!(
            Email::from_str(case).is_ok(),
            "Expected '{}' to be valid",
            case
        );
    }
}

#[test]
fn test_email_keeps_value() {
    let email = Email::from_str("user@example.com").unwrap();
    assert_eq!(email.as_ref(), "user@example.com");
}

#[test]
fn test_email_roundtrip() {
    let email = Email::from_str("first+last@company.com").unwrap();
    let reparsed = Email::from_str(email.as_ref()).unwrap();
    assert_eq!(reparsed.as_ref(), "first+last@company.com");
    assert_eq!(reparsed, email);
}

#[test]
fn test_email_more_invalid_shapes() {
    let invalid_cases = vec![
        "user@domain",
        "user@domain.",
        "user@a..b",
        "us er@example.com",
        "user@exa mple.com",
        " user@example.com",
        "user@example.com ",
        "a@b@c.com",
        "user\u{a0}@example.com",
        "user@exam\u{2003}ple.com",
        "\u{2028}user@example.com",
        "user@example.com\u{3000}",
    ];
    for case in invalid_cases {
        assert!(
            Email::from_str(case).is_err(),
            "Expected '{}' to be invalid",
            case
        );
    }
}
