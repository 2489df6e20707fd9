use vstd::prelude::*;
use crate::domain::data_stores::{BannedTokenStore, TokenStoreError};
use crate::utils::strings::str_eq;

verus! {

/// Some entry of `rows` equals `token`.
pub open spec fn has_token(rows: Seq<Seq<char>>, token: Seq<char>) -> bool {
    exists|i: int| 0 <= i < rows.len() && #[trigger] rows[i] == token
}

/// In-memory banned-token store: the set of token strings banned so far.
#[derive(Debug)]
pub struct HashSetBannedTokenStore {
    banned_tokens: Vec<String>,
}

impl HashSetBannedTokenStore {
    /// The views of the stored tokens, in insertion order.
    pub closed spec fn rows(&self) -> Seq<Seq<char>> {
        self.banned_tokens@.map_values(|s: String| s@)
    }

    /// Creates an empty store.
    pub fn new() -> (r: HashSetBannedTokenStore)
        ensures
            r.inv(),
            r.banned() == Set::<Seq<char>>::empty(),
    {
        let r = HashSetBannedTokenStore { banned_tokens: Vec::new() };
        proof {
            assert(r.rows().len() == 0);
            assert(r.banned() =~= Set::<Seq<char>>::empty());
        }
        r
    }

    /// Linear search for `token`.
    fn contains_token(&self, token: &str) -> (r: bool)
        ensures
            r == has_token(self.rows(), token@),
    {
        let n = self.banned_tokens.len();
        let mut i: usize = 0;
        while i < n
            invariant
                n == self.banned_tokens.len(),
                i <= n,
                forall|j: int| #![trigger self.rows()[j]] 0 <= j < i ==> self.rows()[j] != token@,
            decreases n - i,
        {
            proof {
                assert(self.rows()[i as int] == self.banned_tokens@[i as int]@);
            }
            if str_eq(self.banned_tokens[i].as_str(), token) {
                return true;
            }
            i = i + 1;
        }
        false
    }
}

impl Default for HashSetBannedTokenStore {
    fn default() -> (r: Self)
        ensures
            r.inv(),
            r.banned() == Set::<Seq<char>>::empty(),
    {
        HashSetBannedTokenStore::new()
    }
}

impl BannedTokenStore for HashSetBannedTokenStore {
    closed spec fn banned(&self) -> Set<Seq<char>> {
        Set::new(|t: Seq<char>| has_token(self.rows(), t))
    }

    closed spec fn inv(&self) -> bool {
        true
    }

    fn ban_token(&mut self, token: &str) -> (r: Result<(), TokenStoreError>) {
        let ghost oldrows = self.rows();
        if self.contains_token(token) {
            proof {
                assert(self.banned().contains(token@));
            }
            return Err(TokenStoreError::TokenAlreadyBanned);
        }
        self.banned_tokens.push(token.to_owned());
        proof {
            assert forall|i2: int| 0 <= i2 < self.rows().len() implies #[trigger] self.rows()[i2]
                == oldrows.push(token@)[i2] by {
                assert(self.rows()[i2] == self.banned_tokens@[i2]@);
                if i2 < oldrows.len() {
                    assert(self.banned_tokens@[i2] == old(self).banned_tokens@[i2]);
                    assert(oldrows[i2] == old(self).banned_tokens@[i2]@);
                }
            }
            let rows2 = oldrows.push(token@);
            assert(self.rows() =~= rows2);
            assert forall|t: Seq<char>| #[trigger] self.banned().contains(t) implies old(
                self,
            ).banned().insert(token@).contains(t) by {
                let i = choose|i: int| 0 <= i < rows2.len() && #[trigger] rows2[i] == t;
                if i < oldrows.len() {
                    assert(oldrows[i] == t);
                    assert(has_token(oldrows, t));
                }
            }
            assert forall|t: Seq<char>| old(self).banned().insert(token@).contains(
                t,
            ) implies #[trigger] self.banned().contains(t) by {
                if t == token@ {
                    assert(rows2[oldrows.len() as int] == t);
                } else {
                    let i = choose|i: int| 0 <= i < oldrows.len() && #[trigger] oldrows[i] == t;
                    assert(rows2[i] == t);
                }
            }
            assert(self.banned() =~= old(self).banned().insert(token@));
        }
        Ok(())
    }

    fn is_token_banned(&self, token: &str) -> (r: Result<bool, TokenStoreError>) {
        let b = self.contains_token(token);
        proof {
            assert(self.banned().contains(token@) == has_token(self.rows(), token@));
        }
        Ok(b)
    }
}

} // verus!
