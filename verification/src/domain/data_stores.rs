use vstd::prelude::*;
use crate::domain::email::Email;
use crate::domain::password::Password;
use crate::domain::user::{User, UserView};

verus! {

/// Failures of an account store.
#[derive(Debug, PartialEq, Eq, Clone, Copy)]
pub enum UserStoreError {
    UserAlreadyExists,
    UserNotFound,
    InvalidCredentials,
    UnexpectedError,
}

/// Failures of a banned-token store.
#[derive(Debug, PartialEq, Eq, Clone, Copy)]
pub enum TokenStoreError {
    TokenNotFound,
    TokenAlreadyBanned,
    UnexpectedError,
}

/// Outcome of registering `user` against the accounts keyed by email.
pub open spec fn register_result(accounts: Map<Seq<char>, UserView>, user: UserView) -> Result<
    (),
    UserStoreError,
> {
    if accounts.contains_key(user.email) {
        Err(UserStoreError::UserAlreadyExists)
    } else {
        Ok(())
    }
}

/// The accounts after registering `user`: unchanged on a duplicate email,
/// extended by the new record otherwise.
pub open spec fn register_post(accounts: Map<Seq<char>, UserView>, user: UserView) -> Map<
    Seq<char>,
    UserView,
> {
    if accounts.contains_key(user.email) {
        accounts
    } else {
        accounts.insert(user.email, user)
    }
}

/// Outcome of looking up `email`.
pub open spec fn lookup_result(accounts: Map<Seq<char>, UserView>, email: Seq<char>) -> Result<
    UserView,
    UserStoreError,
> {
    if accounts.contains_key(email) {
        Ok(accounts[email])
    } else {
        Err(UserStoreError::UserNotFound)
    }
}

/// Outcome of validating the credentials `email`/`password`: `UserNotFound`
/// for an unknown email, `InvalidCredentials` for a known email with a
/// different stored password, success otherwise. Never a side effect.
pub open spec fn validate_result(
    accounts: Map<Seq<char>, UserView>,
    email: Seq<char>,
    password: Seq<char>,
) -> Result<(), UserStoreError> {
    if !accounts.contains_key(email) {
        Err(UserStoreError::UserNotFound)
    } else if accounts[email].password != password {
        Err(UserStoreError::InvalidCredentials)
    } else {
        Ok(())
    }
}

/// Outcome of banning `token`: at most one ban per token.
pub open spec fn ban_result(banned: Set<Seq<char>>, token: Seq<char>) -> Result<
    (),
    TokenStoreError,
> {
    if banned.contains(token) {
        Err(TokenStoreError::TokenAlreadyBanned)
    } else {
        Ok(())
    }
}

/// The banned set after a ban of `token`: the token is a member afterwards
/// in either case.
pub open spec fn ban_post(banned: Set<Seq<char>>, token: Seq<char>) -> Set<Seq<char>> {
    if banned.contains(token) {
        banned
    } else {
        banned.insert(token)
    }
}

/// An account store: a mapping from email to account record, with
/// uniqueness enforced on registration.
pub trait UserStore: Sized {
    /// The records currently held, keyed by email.
    spec fn accounts(&self) -> Map<Seq<char>, UserView>;

    /// The store's internal well-formedness.
    spec fn inv(&self) -> bool;

    /// Inserts `user` unless an account with the same email exists.
    fn add_user(&mut self, user: User) -> (r: Result<(), UserStoreError>)
        requires
            old(self).inv(),
        ensures
            final(self).inv(),
            r == register_result(old(self).accounts(), user@),
            final(self).accounts() == register_post(old(self).accounts(), user@),
    ;

    /// Returns a copy of the record stored under `email`.
    fn get_user(&self, email: &Email) -> (r: Result<User, UserStoreError>)
        requires
            self.inv(),
        ensures
            match r {
                Ok(u) => lookup_result(self.accounts(), email@) == Ok::<UserView, UserStoreError>(
                    u@,
                ),
                Err(e) => lookup_result(self.accounts(), email@) == Err::<UserView, UserStoreError>(
                    e,
                ),
            },
    ;

    /// Checks the supplied credentials against the stored record, with no
    /// side effect.
    fn validate_user(&self, email: &Email, password: &Password) -> (r: Result<(), UserStoreError>)
        requires
            self.inv(),
        ensures
            r == validate_result(self.accounts(), email@, password@),
    ;
}

/// A banned-token store: a set of token strings with at-most-once ban
/// semantics and membership queries.
pub trait BannedTokenStore: Sized {
    /// The tokens currently banned.
    spec fn banned(&self) -> Set<Seq<char>>;

    /// The store's internal well-formedness.
    spec fn inv(&self) -> bool;

    /// Bans `token`; reports a second ban of the same token as an error.
    fn ban_token(&mut self, token: &str) -> (r: Result<(), TokenStoreError>)
        requires
            old(self).inv(),
        ensures
            final(self).inv(),
            r == ban_result(old(self).banned(), token@),
            final(self).banned() == ban_post(old(self).banned(), token@),
    ;

    /// Pure membership query; never fails.
    fn is_token_banned(&self, token: &str) -> (r: Result<bool, TokenStoreError>)
        requires
            self.inv(),
        ensures
            r == Ok::<bool, TokenStoreError>(self.banned().contains(token@)),
    ;
}

/// Registering the same email twice: the first call succeeds, the second
/// fails with `UserAlreadyExists`, and the store afterwards holds exactly
/// the first record under that email.
pub proof fn lemma_register_twice(
    accounts: Map<Seq<char>, UserView>,
    first: UserView,
    second: UserView,
)
    requires
        !accounts.contains_key(first.email),
        second.email == first.email,
    ensures
        register_result(accounts, first) == Ok::<(), UserStoreError>(()),
        register_result(register_post(accounts, first), second) == Err::<(), UserStoreError>(
            UserStoreError::UserAlreadyExists,
        ),
        register_post(register_post(accounts, first), second) == register_post(accounts, first),
        register_post(accounts, first).contains_key(first.email),
        register_post(accounts, first)[first.email] == first,
{
}

/// Two registrations for the same fresh email, in either order: exactly one
/// succeeds, the other observes `UserAlreadyExists`, and the final store
/// holds exactly the winner's record under that email.
pub proof fn lemma_register_race(
    accounts: Map<Seq<char>, UserView>,
    first: UserView,
    second: UserView,
)
    requires
        !accounts.contains_key(first.email),
        second.email == first.email,
    ensures
        register_result(accounts, first) == Ok::<(), UserStoreError>(()),
        register_result(register_post(accounts, first), second) == Err::<(), UserStoreError>(
            UserStoreError::UserAlreadyExists,
        ),
        register_post(register_post(accounts, first), second) == accounts.insert(
            first.email,
            first,
        ),
        register_result(accounts, second) == Ok::<(), UserStoreError>(()),
        register_result(register_post(accounts, second), first) == Err::<(), UserStoreError>(
            UserStoreError::UserAlreadyExists,
        ),
        register_post(register_post(accounts, second), first) == accounts.insert(
            second.email,
            second,
        ),
{
}

/// After registering a record under a fresh email, validation succeeds
/// exactly when the supplied password equals the registered one; a wrong
/// password yields `InvalidCredentials`, and an email that was never
/// registered yields `UserNotFound`.
pub proof fn lemma_validate_after_register(
    accounts: Map<Seq<char>, UserView>,
    user: UserView,
    email: Seq<char>,
    password: Seq<char>,
)
    requires
        !accounts.contains_key(user.email),
    ensures
        validate_result(register_post(accounts, user), user.email, password) == (if password
            == user.password {
            Ok::<(), UserStoreError>(())
        } else {
            Err::<(), UserStoreError>(UserStoreError::InvalidCredentials)
        }),
        email != user.email && !accounts.contains_key(email) ==> validate_result(
            register_post(accounts, user),
            email,
            password,
        ) == Err::<(), UserStoreError>(UserStoreError::UserNotFound),
{
}

/// Banning a token twice: the first call succeeds, the second fails with
/// `TokenAlreadyBanned`, and the token is banned after either call.
pub proof fn lemma_ban_twice(banned: Set<Seq<char>>, token: Seq<char>)
    requires
        !banned.contains(token),
    ensures
        ban_result(banned, token) == Ok::<(), TokenStoreError>(()),
        ban_result(ban_post(banned, token), token) == Err::<(), TokenStoreError>(
            TokenStoreError::TokenAlreadyBanned,
        ),
        ban_post(banned, token).contains(token),
        ban_post(ban_post(banned, token), token) == ban_post(banned, token),
{
}

/// A token, once banned, remains banned across any later ban.
pub proof fn lemma_ban_monotone(banned: Set<Seq<char>>, token: Seq<char>, other: Seq<char>)
    requires
        banned.contains(token),
    ensures
        ban_post(banned, other).contains(token),
{
}

} // verus!
