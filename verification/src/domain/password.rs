use vstd::prelude::*;

verus! {

/// A validated password: at least eight characters at construction time,
/// immutable afterwards. The raw form is exposed only for comparison
/// against stored credentials.
#[derive(Debug, PartialEq, Eq)]
pub struct Password(String);

impl View for Password {
    type V = Seq<char>;

    closed spec fn view(&self) -> Seq<char> {
        self.0@
    }
}

impl Clone for Password {
    fn clone(&self) -> (r: Self)
        ensures
            r == *self,
    {
        Password(self.0.clone())
    }
}

impl Password {
    /// The length policy every constructed password satisfies.
    pub open spec fn wf(&self) -> bool {
        self@.len() >= 8
    }

    /// Accepts exactly the strings of at least eight characters and stores
    /// them unchanged.
    pub fn from_str(value: &str) -> (r: Result<Password, String>)
        ensures
            match r {
                Ok(p) => value@.len() >= 8 && p@ == value@,
                Err(_) => value@.len() < 8,
            },
    {
        if value.unicode_len() < 8 {
            return Err("Password must be at least 8 characters long".to_owned());
        }
        Ok(Password(value.to_owned()))
    }

    /// The raw form, for credential comparison only.
    pub fn as_ref(&self) -> (r: &str)
        ensures
            r@ == self@,
    {
        self.0.as_str()
    }
}

} // verus!
