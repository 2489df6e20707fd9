use vstd::prelude::*;

verus! {

/// The fixed stub session token handed out on successful authentication.
/// A real deployment would replace the stub with a signed-token scheme
/// behind this same interface.
pub open spec fn spec_session_token() -> Seq<char> {
    "test"@
}

/// A token passes verification exactly when it equals the stub token up to
/// ASCII case.
pub open spec fn is_valid_token(s: Seq<char>) -> bool {
    &&& s.len() == 4
    &&& (s[0] == 't' || s[0] == 'T')
    &&& (s[1] == 'e' || s[1] == 'E')
    &&& (s[2] == 's' || s[2] == 'S')
    &&& (s[3] == 't' || s[3] == 'T')
}

/// The issued token passes verification.
pub proof fn lemma_session_token_valid()
    ensures
        is_valid_token(spec_session_token()),
{
    reveal_strlit("test");
}

/// Issues the session token for a successfully authenticated subject.
pub fn generate_auth_token() -> (r: String)
    ensures
        r@ == spec_session_token(),
        is_valid_token(r@),
{
    proof {
        lemma_session_token_valid();
    }
    "test".to_owned()
}

/// Decides whether a token is structurally valid, independent of ban
/// status; never fails.
pub fn validate_token(token: &str) -> (r: Result<bool, String>)
    ensures
        r == Ok::<bool, String>(is_valid_token(token@)),
{
    let n = token.unicode_len();
    if n != 4 {
        return Ok(false);
    }
    let c0 = token.get_char(0);
    let c1 = token.get_char(1);
    let c2 = token.get_char(2);
    let c3 = token.get_char(3);
    Ok(
        (c0 == 't' || c0 == 'T') && (c1 == 'e' || c1 == 'E') && (c2 == 's' || c2 == 'S') && (c3
            == 't' || c3 == 'T'),
    )
}

} // verus!
