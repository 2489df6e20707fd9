use vstd::prelude::*;
use crate::domain::data_stores::UserStore;
use crate::domain::email::{valid_email, Email};
use crate::domain::errors::AuthAPIError;
use crate::domain::password::Password;
use crate::domain::user::{User, UserView};

verus! {

/// The raw registration input a caller presents.
pub struct SignupRequest {
    pub email: String,
    pub password: String,
    pub requires_2fa: bool,
}

/// The confirmation returned on a successful registration.
#[derive(Debug, PartialEq, Eq)]
pub struct SignupResponse {
    pub message: String,
}

/// Registers an account from raw input: parses the email and password
/// before touching the store, rejects malformed input with
/// `InvalidCredentials`, reports a duplicate email as `UserAlreadyExists`,
/// and otherwise inserts the new record.
pub fn signup<U: UserStore>(
    store: &mut U,
    email: &str,
    password: &str,
    requires_2fa: bool,
) -> (r: Result<SignupResponse, AuthAPIError>)
    requires
        old(store).inv(),
    ensures
        final(store).inv(),
        !(valid_email(email@) && password@.len() >= 8) ==> r == Err::<SignupResponse, AuthAPIError>(
            AuthAPIError::InvalidCredentials,
        ) && final(store).accounts() == old(store).accounts(),
        valid_email(email@) && password@.len() >= 8 && old(store).accounts().contains_key(email@)
            ==> r == Err::<SignupResponse, AuthAPIError>(AuthAPIError::UserAlreadyExists) && final(store).accounts() == old(store).accounts(),
        valid_email(email@) && password@.len() >= 8 && !old(store).accounts().contains_key(email@)
            ==> (r matches Ok(resp) && resp.message@ == "User created successfully!"@) && final(store).accounts() == old(store).accounts().insert(
            email@,
            (UserView { email: email@, password: password@, requires_2fa }),
        ),
{
    let parsed_email = match Email::from_str(email) {
        Ok(e) => e,
        Err(_) => {
            return Err(AuthAPIError::InvalidCredentials);
        },
    };
    let parsed_password = match Password::from_str(password) {
        Ok(p) => p,
        Err(_) => {
            return Err(AuthAPIError::InvalidCredentials);
        },
    };
    let user = User::new(parsed_email, parsed_password, requires_2fa);
    match store.add_user(user) {
        Ok(_) => Ok(SignupResponse { message: "User created successfully!".to_owned() }),
        Err(_) => Err(AuthAPIError::UserAlreadyExists),
    }
}

} // verus!
