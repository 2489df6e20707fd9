use vstd::prelude::*;
use vstd::map::*;
use crate::domain::data_stores::{UserStore, UserStoreError};
use crate::domain::email::Email;
use crate::domain::password::Password;
use crate::domain::user::{User, UserView};
use crate::utils::strings::str_eq;

verus! {

/// Some record of `rows` is keyed by `email`.
pub open spec fn has_email(rows: Seq<UserView>, email: Seq<char>) -> bool {
    exists|i: int| 0 <= i < rows.len() && (#[trigger] rows[i]).email == email
}

/// An index of the record keyed by `email` (unique when the emails are
/// pairwise distinct).
pub open spec fn row_index(rows: Seq<UserView>, email: Seq<char>) -> int {
    choose|i: int| 0 <= i < rows.len() && (#[trigger] rows[i]).email == email
}

/// The record of `rows` keyed by `email`.
pub open spec fn row_for(rows: Seq<UserView>, email: Seq<char>) -> UserView {
    rows[row_index(rows, email)]
}

/// The emails of the records are pairwise distinct.
pub open spec fn unique_emails(rows: Seq<UserView>) -> bool {
    forall|i: int, j: int|
        #![trigger rows[i], rows[j]]
        0 <= i < j < rows.len() ==> rows[i].email != rows[j].email
}

/// The email-keyed map a row sequence denotes.
pub open spec fn rows_map(rows: Seq<UserView>) -> Map<Seq<char>, UserView> {
    Map::new(|email: Seq<char>| has_email(rows, email), |email: Seq<char>| row_for(rows, email))
}

/// A record keyed by one of the stored emails is looked up exactly.
proof fn lemma_row_at(rows: Seq<UserView>, i: int)
    requires
        unique_emails(rows),
        0 <= i < rows.len(),
    ensures
        has_email(rows, rows[i].email),
        rows_map(rows).contains_key(rows[i].email),
        rows_map(rows)[rows[i].email] == rows[i],
{
    assert(has_email(rows, rows[i].email));
    let j = row_index(rows, rows[i].email);
    assert(rows[j].email == rows[i].email);
    assert(j == i);
}

/// Appending a record under a fresh email extends the denoted map by that
/// record and preserves distinctness.
proof fn lemma_rows_push(rows: Seq<UserView>, user: UserView)
    requires
        unique_emails(rows),
        !has_email(rows, user.email),
    ensures
        unique_emails(rows.push(user)),
        rows_map(rows.push(user)) == rows_map(rows).insert(user.email, user),
{
    let rows2 = rows.push(user);
    assert forall|i: int, j: int|
        #![trigger rows2[i], rows2[j]]
        0 <= i < j < rows2.len() implies rows2[i].email != rows2[j].email by {
        if j == rows.len() {
            assert(rows2[i] == rows[i]);
            if rows[i].email == user.email {
                assert(has_email(rows, user.email));
            }
        } else {
            assert(rows2[i] == rows[i]);
            assert(rows2[j] == rows[j]);
        }
    }
    let m1 = rows_map(rows2);
    let m2 = rows_map(rows).insert(user.email, user);
    assert_maps_equal!(m1, m2, e => {
        if has_email(rows2, e) {
            let i = row_index(rows2, e);
            assert(rows2[i].email == e);
            if i < rows.len() {
                assert(rows2[i] == rows[i]);
                assert(has_email(rows, e));
                let i2 = row_index(rows, e);
                assert(rows[i2].email == e);
                assert(i2 == i);
                assert(m1[e] == rows[i2]);
            } else {
                assert(rows2[i] == user);
                assert(e == user.email);
                assert(m1[e] == user);
            }
        }
        if e == user.email {
            assert(rows2[rows.len() as int] == user);
            assert(has_email(rows2, e));
        }
        if has_email(rows, e) {
            let i = row_index(rows, e);
            assert(rows[i].email == e);
            assert(rows2[i] == rows[i]);
            assert(has_email(rows2, e));
        }
    });
}

/// In-memory account store. Records are kept in insertion order with
/// pairwise-distinct emails; the store's logical content is the map from
/// email to record.
#[derive(Debug)]
pub struct HashmapUserStore {
    users: Vec<User>,
}

impl HashmapUserStore {
    /// The views of the stored records, in insertion order.
    pub closed spec fn rows(&self) -> Seq<UserView> {
        self.users@.map_values(|u: User| u@)
    }

    /// Creates an empty store.
    pub fn new() -> (r: HashmapUserStore)
        ensures
            r.inv(),
            r.accounts() == Map::<Seq<char>, UserView>::empty(),
    {
        let r = HashmapUserStore { users: Vec::new() };
        proof {
            assert(r.rows().len() == 0);
            assert(r.accounts() =~= Map::<Seq<char>, UserView>::empty());
        }
        r
    }

    /// Linear search for the record keyed by `email`.
    fn find_index(&self, email: &str) -> (r: Option<usize>)
        ensures
            match r {
                Some(i) => i < self.rows().len() && self.rows()[i as int].email == email@,
                None => !has_email(self.rows(), email@),
            },
    {
        let n = self.users.len();
        let mut i: usize = 0;
        while i < n
            invariant
                n == self.users.len(),
                i <= n,
                forall|j: int| #![trigger self.rows()[j]] 0 <= j < i ==> self.rows()[j].email
                    != email@,
            decreases n - i,
        {
            proof {
                assert(self.rows()[i as int] == self.users@[i as int]@);
            }
            if str_eq(self.users[i].email.as_ref(), email) {
                return Some(i);
            }
            i = i + 1;
        }
        None
    }
}

impl Default for HashmapUserStore {
    fn default() -> (r: Self)
        ensures
            r.inv(),
            r.accounts() == Map::<Seq<char>, UserView>::empty(),
    {
        HashmapUserStore::new()
    }
}

impl UserStore for HashmapUserStore {
    closed spec fn accounts(&self) -> Map<Seq<char>, UserView> {
        rows_map(self.rows())
    }

    closed spec fn inv(&self) -> bool {
        unique_emails(self.rows())
    }

    fn add_user(&mut self, user: User) -> (r: Result<(), UserStoreError>) {
        let ghost oldrows = self.rows();
        let ghost uview = user@;
        match self.find_index(user.email.as_ref()) {
            Some(i) => {
                proof {
                    assert(has_email(oldrows, uview.email));
                    assert(self.accounts().contains_key(uview.email));
                }
                Err(UserStoreError::UserAlreadyExists)
            },
            None => {
                self.users.push(user);
                proof {
                    assert forall|i2: int| 0 <= i2 < self.rows().len() implies #[trigger] self.rows()[i2]
                        == oldrows.push(uview)[i2] by {
                        assert(self.rows()[i2] == self.users@[i2]@);
                        if i2 < oldrows.len() {
                            assert(self.users@[i2] == old(self).users@[i2]);
                            assert(oldrows[i2] == old(self).users@[i2]@);
                        }
                    }
                    assert(self.rows() =~= oldrows.push(uview));
                    lemma_rows_push(oldrows, uview);
                }
                Ok(())
            },
        }
    }

    fn get_user(&self, email: &Email) -> (r: Result<User, UserStoreError>) {
        match self.find_index(email.as_ref()) {
            Some(i) => {
                let u = self.users[i].clone();
                proof {
                    assert(self.rows()[i as int] == self.users@[i as int]@);
                    lemma_row_at(self.rows(), i as int);
                }
                Ok(u)
            },
            None => {
                proof {
                    assert(!self.accounts().contains_key(email@));
                }
                Err(UserStoreError::UserNotFound)
            },
        }
    }

    fn validate_user(&self, email: &Email, password: &Password) -> (r: Result<
        (),
        UserStoreError,
    >) {
        match self.find_index(email.as_ref()) {
            Some(i) => {
                proof {
                    assert(self.rows()[i as int] == self.users@[i as int]@);
                    lemma_row_at(self.rows(), i as int);
                }
                if str_eq(self.users[i].password.as_ref(), password.as_ref()) {
                    Ok(())
                } else {
                    Err(UserStoreError::InvalidCredentials)
                }
            },
            None => {
                proof {
                    assert(!self.accounts().contains_key(email@));
                }
                Err(UserStoreError::UserNotFound)
            },
        }
    }
}

} // verus!
