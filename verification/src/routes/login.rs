use vstd::prelude::*;
use crate::domain::data_stores::{UserStore, UserStoreError};
use crate::domain::email::{valid_email, Email};
use crate::domain::errors::AuthAPIError;
use crate::domain::password::Password;
use crate::utils::auth::{generate_auth_token, spec_session_token};

verus! {

/// The raw credentials a caller presents.
pub struct LoginRequest {
    email: String,
    password: String,
}

impl LoginRequest {
    /// The raw email field.
    pub closed spec fn email_view(&self) -> Seq<char> {
        self.email@
    }

    /// The raw password field.
    pub closed spec fn password_view(&self) -> Seq<char> {
        self.password@
    }

    /// Bundles raw credentials.
    pub fn new(email: String, password: String) -> (r: LoginRequest)
        ensures
            r.email_view() == email@,
            r.password_view() == password@,
    {
        LoginRequest { email, password }
    }

    /// The raw email.
    pub fn email(&self) -> (r: &str)
        ensures
            r@ == self.email_view(),
    {
        self.email.as_str()
    }

    /// The raw password.
    pub fn password(&self) -> (r: &str)
        ensures
            r@ == self.password_view(),
    {
        self.password.as_str()
    }
}

/// Authenticates raw credentials: parses them before touching the store
/// (`InvalidCredentials` on malformed input), checks them against the
/// stored record (`NotFound` on an email with no account,
/// `IncorrectCredentials` on a wrong password, `UnexpectedError` on any
/// other store failure), and on success issues and returns a session token
/// for transport-layer delivery.
pub fn login<U: UserStore>(store: &U, email: &str, password: &str) -> (r: Result<
    String,
    AuthAPIError,
>)
    requires
        store.inv(),
    ensures
        !(valid_email(email@) && password@.len() >= 8) ==> r == Err::<String, AuthAPIError>(
            AuthAPIError::InvalidCredentials,
        ),
        valid_email(email@) && password@.len() >= 8 && !store.accounts().contains_key(email@) ==> r
            == Err::<String, AuthAPIError>(AuthAPIError::NotFound),
        valid_email(email@) && password@.len() >= 8 && store.accounts().contains_key(email@)
            && store.accounts()[email@].password != password@ ==> r == Err::<String, AuthAPIError>(
            AuthAPIError::IncorrectCredentials,
        ),
        valid_email(email@) && password@.len() >= 8 && store.accounts().contains_key(email@)
            && store.accounts()[email@].password == password@ ==> (r matches Ok(token)
            && token@ == spec_session_token()),
{
    let parsed_email = match Email::from_str(email) {
        Ok(e) => e,
        Err(_) => {
            return Err(AuthAPIError::InvalidCredentials);
        },
    };
    let parsed_password = match Password::from_str(password) {
        Ok(p) => p,
        Err(_) => {
            return Err(AuthAPIError::InvalidCredentials);
        },
    };
    match store.validate_user(&parsed_email, &parsed_password) {
        Ok(_) => {},
        Err(UserStoreError::InvalidCredentials) => {
            return Err(AuthAPIError::IncorrectCredentials);
        },
        Err(UserStoreError::UserNotFound) => {
            return Err(AuthAPIError::NotFound);
        },
        Err(_) => {
            return Err(AuthAPIError::UnexpectedError);
        },
    }
    Ok(generate_auth_token())
}

} // verus!
