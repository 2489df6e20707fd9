use auth_service::domain::Password;
use fake::faker::internet::en::Password as FakePassword;
use fake::Fake;

#[test]
fn test_password_valid() {
    let val: String = FakePassword(8..20).fake();
    let password: Result<Password, String> = Password::from_str(val.as_str());
    assert!(password.is_ok());
}

#[test]
fn test_password_too_short() {
    let val = "short";
    let password: Result<Password, String> = Password::from_str(val);
    assert!(password.is_err());
}

#[test]
fn test_password_length_boundary() {
    assert!(Password::from_str("1234567").is_err());
    let password = Password::from_str("12345678").unwrap();
    assert_eq!(password.as_ref(), "12345678");
}

#[test]
fn test_empty_password_rejected() {
    assert!(Password::from_str("").is_err());
}
