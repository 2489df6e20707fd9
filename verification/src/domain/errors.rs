use vstd::prelude::*;

verus! {

/// The error vocabulary the four operations report to the transport layer,
/// which alone translates each variant into a wire response.
#[derive(Debug, PartialEq, Eq, Clone, Copy)]
pub enum AuthAPIError {
    /// A registration for an email that already has an account.
    UserAlreadyExists,
    /// Malformed input: an invalid email or a too-short password, detected
    /// before any store access.
    InvalidCredentials,
    /// A lookup or authentication against an email with no account.
    NotFound,
    /// A known email presented with the wrong password.
    IncorrectCredentials,
    /// An operation requiring a token was called without one.
    MissingToken,
    /// A token that fails verification.
    InvalidToken,
    /// A store or capability failure not otherwise classified.
    UnexpectedError,
}

} // verus!
