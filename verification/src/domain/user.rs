use vstd::prelude::*;
use crate::domain::email::Email;
use crate::domain::password::Password;

verus! {

/// The mathematical content of an account record.
pub ghost struct UserView {
    pub email: Seq<char>,
    pub password: Seq<char>,
    pub requires_2fa: bool,
}

/// A registered account: a unique email, a password credential, and a
/// second-factor flag.
#[derive(Debug, PartialEq)]
pub struct User {
    pub email: Email,
    pub password: Password,
    pub requires_2fa: bool,
}

impl View for User {
    type V = UserView;

    open spec fn view(&self) -> UserView {
        UserView { email: self.email@, password: self.password@, requires_2fa: self.requires_2fa }
    }
}

impl Clone for User {
    fn clone(&self) -> (r: Self)
        ensures
            r == *self,
    {
        User {
            email: self.email.clone(),
            password: self.password.clone(),
            requires_2fa: self.requires_2fa,
        }
    }
}

impl User {
    /// Creates a new account record.
    pub fn new(email: Email, password: Password, requires_2fa: bool) -> (r: User)
        ensures
            r.email == email,
            r.password == password,
            r.requires_2fa == requires_2fa,
    {
        User { email, password, requires_2fa }
    }
}

} // verus!
