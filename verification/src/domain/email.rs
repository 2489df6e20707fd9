use vstd::prelude::*;

verus! {

/// Whitespace characters that may not appear anywhere in an address: the
/// Unicode `White_Space` set.
pub open spec fn is_space_char(c: char) -> bool {
    ||| c == ' '
    ||| c == '\t'
    ||| c == '\n'
    ||| c == '\u{0B}'
    ||| c == '\u{0C}'
    ||| c == '\r'
    ||| c == '\u{85}'
    ||| c == '\u{A0}'
    ||| c == '\u{1680}'
    ||| (('\u{2000}' as u32) <= (c as u32) && (c as u32) <= ('\u{200A}' as u32))
    ||| c == '\u{2028}'
    ||| c == '\u{2029}'
    ||| c == '\u{202F}'
    ||| c == '\u{205F}'
    ||| c == '\u{3000}'
}

/// Decides membership in the whitespace set.
fn is_space(c: char) -> (r: bool)
    ensures
        r == is_space_char(c),
{
    c == ' ' || c == '\t' || c == '\n' || c == '\u{0B}' || c == '\u{0C}' || c == '\r' || c
        == '\u{85}' || c == '\u{A0}' || c == '\u{1680}' || (('\u{2000}' as u32) <= (c as u32) && (c
        as u32) <= ('\u{200A}' as u32)) || c == '\u{2028}' || c == '\u{2029}' || c == '\u{202F}'
        || c == '\u{205F}' || c == '\u{3000}'
}

/// Characters admissible in the local part: anything but '@' and whitespace.
pub open spec fn local_char_ok(c: char) -> bool {
    c != '@' && !is_space_char(c)
}

/// Characters admissible in the domain: anything but '@' and whitespace.
pub open spec fn domain_char_ok(c: char) -> bool {
    c != '@' && !is_space_char(c)
}

/// A well-formed local part: non-empty, no '@', no whitespace.
pub open spec fn local_ok(l: Seq<char>) -> bool {
    &&& l.len() > 0
    &&& (forall|j: int| #![trigger l[j]] 0 <= j < l.len() ==> local_char_ok(l[j]))
}

/// A well-formed domain: non-empty, free of '@' and whitespace, with at
/// least one dot, and no dot-separated label empty (no leading or trailing
/// dot, no two adjacent dots).
pub open spec fn domain_ok(d: Seq<char>) -> bool {
    &&& d.len() > 0
    &&& (forall|j: int| #![trigger d[j]] 0 <= j < d.len() ==> domain_char_ok(d[j]))
    &&& (exists|j: int| #![trigger d[j]] 0 <= j < d.len() && d[j] == '.')
    &&& d[0] != '.'
    &&& d[d.len() - 1] != '.'
    &&& (forall|j: int| #![trigger d[j]] 0 <= j < d.len() - 1 ==> !(d[j] == '.' && d[j + 1]
        == '.'))
}

/// `s` splits at position `i` into a well-formed local part, '@', and a
/// well-formed domain.
pub open spec fn email_split_ok(s: Seq<char>, i: int) -> bool {
    &&& 0 <= i < s.len()
    &&& s[i] == '@'
    &&& local_ok(s.subrange(0, i))
    &&& domain_ok(s.subrange(i + 1, s.len() as int))
}

/// An RFC-shaped address: some position splits it into a well-formed local
/// part and domain.
pub open spec fn valid_email(s: Seq<char>) -> bool {
    exists|i: int| email_split_ok(s, i)
}

/// Only the first '@' can split a string into a valid address: any later
/// candidate position carries that first '@' inside its local part.
proof fn lemma_split_unique(s: Seq<char>, at: int)
    requires
        0 <= at < s.len(),
        s[at] == '@',
        forall|j: int| #![trigger s[j]] 0 <= j < at ==> s[j] != '@',
    ensures
        forall|k: int| k != at ==> !email_split_ok(s, k),
{
    assert forall|k: int| k != at implies !email_split_ok(s, k) by {
        if 0 <= k < s.len() && s[k] == '@' && k > at {
            let l = s.subrange(0, k);
            assert(l[at] == s[at]);
            assert(!local_char_ok(l[at]));
        }
    }
}

/// A string without '@', one that starts with '@' (empty local part), and
/// one that ends with '@' (empty domain) are all invalid addresses.
pub proof fn lemma_email_rejection_cases(s: Seq<char>)
    ensures
        (forall|i: int| #![trigger s[i]] 0 <= i < s.len() ==> s[i] != '@') ==> !valid_email(s),
        s.len() > 0 && s[0] == '@' ==> !valid_email(s),
        s.len() > 0 && s[s.len() - 1] == '@' ==> !valid_email(s),
{
    if forall|i: int| #![trigger s[i]] 0 <= i < s.len() ==> s[i] != '@' {
        assert forall|i: int| !email_split_ok(s, i) by {
            if 0 <= i < s.len() {
                assert(s[i] != '@');
            }
        }
        assert(!valid_email(s));
    }
    if s.len() > 0 && s[0] == '@' {
        assert forall|i: int| !email_split_ok(s, i) by {
            if 0 < i < s.len() && s[i] == '@' {
                let l = s.subrange(0, i);
                assert(l[0] == s[0]);
                assert(!local_char_ok(l[0]));
            } else if i == 0 {
                assert(s.subrange(0, 0).len() == 0);
            }
        }
        assert(!valid_email(s));
    }
    if s.len() > 0 && s[s.len() - 1] == '@' {
        assert forall|i: int| !email_split_ok(s, i) by {
            if 0 <= i < s.len() - 1 && s[i] == '@' {
                let d = s.subrange(i + 1, s.len() as int);
                assert(d[s.len() - 1 - (i + 1)] == s[s.len() - 1]);
                assert(!domain_char_ok(d[s.len() - 1 - (i + 1)]));
            } else if i == s.len() - 1 {
                assert(s.subrange(i + 1, s.len() as int).len() == 0);
            }
        }
        assert(!valid_email(s));
    }
}

/// A validated email address. The wrapped string always satisfies
/// `valid_email`; parsing is the only way to construct one.
#[derive(Debug, PartialEq, Eq, Hash)]
pub struct Email {
    value: String,
}

impl View for Email {
    type V = Seq<char>;

    closed spec fn view(&self) -> Seq<char> {
        self.value@
    }
}

impl Clone for Email {
    fn clone(&self) -> (r: Self)
        ensures
            r == *self,
    {
        Email { value: self.value.clone() }
    }
}

impl Email {
    /// The syntactic invariant every constructed address satisfies.
    pub open spec fn wf(&self) -> bool {
        valid_email(self@)
    }

    /// Parses and validates an address; accepts exactly the strings that
    /// satisfy `valid_email` and stores them unchanged.
    pub fn from_str(value: &str) -> (r: Result<Email, String>)
        ensures
            match r {
                Ok(e) => valid_email(value@) && e@ == value@,
                Err(_) => !valid_email(value@),
            },
    {
        let n = value.unicode_len();
        // Find the first '@'.
        let mut i: usize = 0;
        while i < n && value.get_char(i) != '@'
            invariant
                n == value@.len(),
                i <= n,
                forall|j: int| #![trigger value@[j]] 0 <= j < i ==> value@[j] != '@',
            decreases n - i,
        {
            i = i + 1;
        }
        if i == n {
            proof {
                assert forall|k: int| !email_split_ok(value@, k) by {
                    if 0 <= k < value@.len() {
                        assert(value@[k] != '@');
                    }
                }
            }
            return Err("Invalid email format".to_owned());
        }
        let at = i;
        proof {
            lemma_split_unique(value@, at as int);
        }
        // The local part must be non-empty and free of whitespace.
        if at == 0 {
            proof {
                assert(value@.subrange(0, 0).len() == 0);
                assert(!email_split_ok(value@, 0));
            }
            return Err("Invalid email format".to_owned());
        }
        let mut j: usize = 0;
        while j < at
            invariant
                n == value@.len(),
                0 < at < n,
                value@[at as int] == '@',
                forall|m: int| #![trigger value@[m]] 0 <= m < at ==> value@[m] != '@',
                j <= at,
                forall|m: int| #![trigger value@[m]] 0 <= m < j ==> local_char_ok(value@[m]),
            decreases at - j,
        {
            let c = value.get_char(j);
            if is_space(c) {
                proof {
                    let l = value@.subrange(0, at as int);
                    assert(l[j as int] == value@[j as int]);
                    assert(!local_char_ok(l[j as int]));
                    lemma_split_unique(value@, at as int);
                }
                return Err("Invalid email format".to_owned());
            }
            j = j + 1;
        }
        // The domain must be non-empty, free of '@' and whitespace, hold a
        // dot, and have no empty label.
        if at + 1 == n {
            proof {
                assert(value@.subrange(at as int + 1, n as int).len() == 0);
            }
            return Err("Invalid email format".to_owned());
        }
        let ghost d = value@.subrange(at as int + 1, n as int);
        let mut has_dot = false;
        let mut prev_dot = false;
        let mut k: usize = at + 1;
        while k < n
            invariant
                n == value@.len(),
                0 < at < n,
                at + 1 < n,
                value@[at as int] == '@',
                d == value@.subrange(at as int + 1, n as int),
                forall|m: int| #![trigger value@[m]] 0 <= m < at ==> value@[m] != '@',
                forall|m: int| #![trigger value@[m]] 0 <= m < at ==> local_char_ok(value@[m]),
                at + 1 <= k <= n,
                k > at + 1 ==> value@[at as int + 1] != '.',
                forall|m: int| #![trigger value@[m]] at + 1 <= m < k ==> domain_char_ok(
                    value@[m],
                ),
                has_dot == (exists|m: int| #![trigger value@[m]] at + 1 <= m < k && value@[m]
                    == '.'),
                forall|m: int| #![trigger value@[m]] at + 1 <= m < k - 1 ==> !(value@[m] == '.'
                    && value@[m + 1] == '.'),
                k > at + 1 ==> prev_dot == (value@[k - 1] == '.'),
            decreases n - k,
        {
            let c = value.get_char(k);
            if c == '@' || is_space(c) {
                proof {
                    lemma_split_unique(value@, at as int);
                    assert(d[k - at - 1] == value@[k as int]);
                    assert(!domain_char_ok(d[k - at - 1]));
                    assert(!domain_ok(d));
                    assert(!email_split_ok(value@, at as int));
                }
                return Err("Invalid email format".to_owned());
            }
            if c == '.' {
                if k == at + 1 {
                    proof {
                        lemma_split_unique(value@, at as int);
                        assert(d[0] == value@[at as int + 1]);
                        assert(!domain_ok(d));
                        assert(!email_split_ok(value@, at as int));
                    }
                    return Err("Invalid email format".to_owned());
                }
                if prev_dot {
                    proof {
                        lemma_split_unique(value@, at as int);
                        assert(d[k - at - 2] == value@[k as int - 1]);
                        assert(d[k - at - 1] == value@[k as int]);
                        assert(!(d[k - at - 2] != '.' || d[k - at - 1] != '.'));
                        assert(!domain_ok(d));
                        assert(!email_split_ok(value@, at as int));
                    }
                    return Err("Invalid email format".to_owned());
                }
                has_dot = true;
                prev_dot = true;
            } else {
                prev_dot = false;
            }
            k = k + 1;
        }
        if !has_dot {
            proof {
                lemma_split_unique(value@, at as int);
                if domain_ok(d) {
                    let j2 = choose|j2: int| #![trigger d[j2]] 0 <= j2 < d.len() && d[j2] == '.';
                    assert(value@[at as int + 1 + j2] == '.');
                }
                assert(!domain_ok(d));
                assert(!email_split_ok(value@, at as int));
            }
            return Err("Invalid email format".to_owned());
        }
        if prev_dot {
            proof {
                lemma_split_unique(value@, at as int);
                assert(d[d.len() - 1] == value@[n as int - 1]);
                assert(!domain_ok(d));
                assert(!email_split_ok(value@, at as int));
            }
            return Err("Invalid email format".to_owned());
        }
        proof {
            let l = value@.subrange(0, at as int);
            assert forall|m: int| 0 <= m < l.len() implies local_char_ok(#[trigger] l[m]) by {
                assert(l[m] == value@[m]);
            }
            assert forall|m: int| 0 <= m < d.len() implies domain_char_ok(#[trigger] d[m]) by {
                assert(d[m] == value@[at as int + 1 + m]);
            }
            let dot = choose|m: int| #![trigger value@[m]] at + 1 <= m < n && value@[m] == '.';
            assert(d[dot - at - 1] == value@[dot]);
            assert(d[0] == value@[at as int + 1]);
            assert(d[d.len() - 1] == value@[n as int - 1]);
            assert forall|m: int| 0 <= m < d.len() - 1 implies !(#[trigger] d[m] == '.' && d[m + 1]
                == '.') by {
                assert(d[m] == value@[at as int + 1 + m]);
                assert(d[m + 1] == value@[at as int + 2 + m]);
            }
            assert(email_split_ok(value@, at as int));
        }
        Ok(Email { value: value.to_owned() })
    }

    /// The underlying string, for use as a map key and for comparison.
    pub fn as_ref(&self) -> (r: &str)
        ensures
            r@ == self@,
    {
        self.value.as_str()
    }
}

} // verus!
