use vstd::prelude::*;
use crate::domain::data_stores::BannedTokenStore;
use crate::domain::errors::AuthAPIError;
use crate::utils::auth::{is_valid_token, validate_token};

verus! {

/// The raw token a caller presents for a validity check.
pub struct TokenRequest {
    pub token: String,
}

/// Checks a token's validity. Ban status is checked first, deliberately
/// before verification, so that a banned but otherwise well-formed token is
/// rejected unconditionally; an unbanned token is then verified. Both
/// rejections surface as `IncorrectCredentials`, which the transport layer
/// reports as unauthorized.
pub fn verify_token<B: BannedTokenStore>(store: &B, token: &str) -> (r: Result<(), AuthAPIError>)
    requires
        store.inv(),
    ensures
        r == Ok::<(), AuthAPIError>(()) <==> !store.banned().contains(token@) && is_valid_token(
            token@,
        ),
        r is Err ==> r == Err::<(), AuthAPIError>(AuthAPIError::IncorrectCredentials),
{
    let banned = match store.is_token_banned(token) {
        Ok(b) => b,
        Err(_) => {
            return Err(AuthAPIError::UnexpectedError);
        },
    };
    if banned {
        return Err(AuthAPIError::IncorrectCredentials);
    }
    let valid = match validate_token(token) {
        Ok(v) => v,
        Err(_) => {
            return Err(AuthAPIError::IncorrectCredentials);
        },
    };
    if !valid {
        return Err(AuthAPIError::IncorrectCredentials);
    }
    Ok(())
}

} // verus!
