use vstd::prelude::*;
use crate::domain::data_stores::BannedTokenStore;
use crate::domain::errors::AuthAPIError;
use crate::utils::auth::{is_valid_token, validate_token};

verus! {

/// Invalidates a session token: `MissingToken` when the caller supplied
/// none, `InvalidToken` when verification fails, `UnexpectedError` when the
/// token was already banned; otherwise the token joins the banned set and
/// the caller is to discard it.
pub fn logout<B: BannedTokenStore>(store: &mut B, token: Option<&str>) -> (r: Result<
    (),
    AuthAPIError,
>)
    requires
        old(store).inv(),
    ensures
        final(store).inv(),
        match token {
            None => r == Err::<(), AuthAPIError>(AuthAPIError::MissingToken) && final(store).banned() == old(store).banned(),
            Some(t) => {
                if !is_valid_token(t@) {
                    r == Err::<(), AuthAPIError>(AuthAPIError::InvalidToken) && final(store).banned() == old(store).banned()
                } else if old(store).banned().contains(t@) {
                    r == Err::<(), AuthAPIError>(AuthAPIError::UnexpectedError) && final(store).banned() == old(store).banned()
                } else {
                    r == Ok::<(), AuthAPIError>(()) && final(store).banned() == old(store).banned().insert(t@)
                }
            },
        },
{
    let t = match token {
        Some(t) => t,
        None => {
            return Err(AuthAPIError::MissingToken);
        },
    };
    let valid = match validate_token(t) {
        Ok(v) => v,
        Err(_) => {
            return Err(AuthAPIError::InvalidToken);
        },
    };
    if !valid {
        return Err(AuthAPIError::InvalidToken);
    }
    match store.ban_token(t) {
        Ok(_) => Ok(()),
        Err(_) => Err(AuthAPIError::UnexpectedError),
    }
}

} // verus!
