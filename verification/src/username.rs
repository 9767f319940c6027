//! Username format rules: ASCII-alphanumeric, 2 to 64 characters.

use vstd::prelude::*;

verus! {

/// A username that the authentication middleware resolved from a bearer
/// token and attached to the request.
#[derive(Clone)]
pub struct Username(pub String);

/// ASCII letter or digit.
pub open spec fn is_alnum_char(c: char) -> bool {
    ||| '0' as u32 <= c as u32 <= '9' as u32
    ||| 'A' as u32 <= c as u32 <= 'Z' as u32
    ||| 'a' as u32 <= c as u32 <= 'z' as u32
}

/// A well-formed username: 2 to 64 characters, all ASCII-alphanumeric.
pub open spec fn valid_username(s: Seq<char>) -> bool {
    &&& 2 <= s.len() <= 64
    &&& forall|i: int| 0 <= i < s.len() ==> is_alnum_char(#[trigger] s[i])
}

/// Decides whether `c` is an ASCII letter or digit.
pub fn is_alnum(c: char) -> (r: bool)
    ensures
        r == is_alnum_char(c),
{
    let u = c as u32;
    ('0' as u32 <= u && u <= '9' as u32) || ('A' as u32 <= u && u <= 'Z' as u32) || ('a' as u32
        <= u && u <= 'z' as u32)
}

/// Decides whether `name` is a well-formed username.
pub fn is_valid_username(name: &str) -> (r: bool)
    ensures
        r == valid_username(name@),
{
    let n = name.unicode_len();
    if n < 2 || n > 64 {
        return false;
    }
    let mut i: usize = 0;
    while i < n
        invariant
            i <= n,
            n == name@.len(),
            2 <= n <= 64,
            forall|j: int| 0 <= j < i ==> is_alnum_char(#[trigger] name@[j]),
        decreases n - i,
    {
        if !is_alnum(name.get_char(i)) {
            return false;
        }
        i = i + 1;
    }
    true
}

/// An alphanumeric username never contains a colon, so it is always
/// acceptable as the account label of a provisioning URI.
pub proof fn lemma_valid_username_no_colon(s: Seq<char>)
    requires
        valid_username(s),
    ensures
        !s.contains(':'),
{
    assert forall|i: int| 0 <= i < s.len() implies s[i] != ':' by {
        assert(is_alnum_char(s[i]));
    }
}

} // verus!
