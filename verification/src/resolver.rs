//! Bearer-token authentication: parsing the Authorization header and
//! resolving the token to the username that owns it, by a full scan of the
//! registry. Correctness is preferred over lookup speed: there is no
//! secondary token index to fall out of step with the registry.

use vstd::prelude::*;

use crate::registry::{
    lemma_sessions_map_value, lemma_users_map_value, Registry, UserView, user_wf,
};
use crate::text::str_eq;

verus! {

/// Account `u` has a session whose token is `t`.
pub open spec fn owns_token(m: Map<Seq<char>, UserView>, u: Seq<char>, t: Seq<char>) -> bool {
    m.dom().contains(u) && exists|d: Seq<char>|
        #[trigger] m[u].sessions.dom().contains(d) && m[u].sessions[d].token == t
}

/// No two sessions anywhere in the registry share a token.
pub open spec fn tokens_unique(m: Map<Seq<char>, UserView>) -> bool {
    forall|u1: Seq<char>, d1: Seq<char>, u2: Seq<char>, d2: Seq<char>|
        m.dom().contains(u1) && m.dom().contains(u2) && #[trigger] m[u1].sessions.dom().contains(d1)
            && #[trigger] m[u2].sessions.dom().contains(d2) && (u1 != u2 || d1 != d2)
            ==> m[u1].sessions[d1].token != m[u2].sessions[d2].token
}

/// The token part of an Authorization header: everything after the scheme
/// prefix `Bearer` and one space, if the header has that shape.
pub fn parse_bearer(header: &str) -> (r: Option<&str>)
    ensures
        r is Some <==> header@.len() >= 7 && header@.subrange(0, 7) == "Bearer "@,
        r matches Some(t) ==> header@ == "Bearer "@ + t@,
{
    proof {
        reveal_strlit("Bearer ");
    }
    let n = header.unicode_len();
    if n < 7 {
        return None;
    }
    let mut i: usize = 0;
    while i < 7
        invariant
            i <= 7,
            7 <= n,
            n == header@.len(),
            forall|j: int| 0 <= j < i ==> header@[j] == "Bearer "@[j],
        decreases 7 - i,
    {
        proof {
            reveal_strlit("Bearer ");
        }
        if header.get_char(i) != "Bearer ".get_char(i) {
            assert(header@.subrange(0, 7) != "Bearer "@);
            return None;
        }
        i = i + 1;
    }
    let token = header.substring_char(7, n);
    proof {
        assert(header@.subrange(0, 7) =~= "Bearer "@);
        assert(header@ =~= "Bearer "@ + token@);
    }
    Some(token)
}

/// The username owning the session whose token is `token`, after a full
/// registry scan; `None` when no session anywhere carries it.
pub fn resolve_token(reg: &Registry, token: &str) -> (r: Option<String>)
    requires
        reg.wf(),
    ensures
        r matches Some(u) ==> owns_token(reg@, u@, token@),
        r is None ==> forall|u: Seq<char>| !owns_token(reg@, u, token@),
{
    let n = reg.users.len();
    let mut i: usize = 0;
    while i < n
        invariant
            i <= n,
            n == reg.users@.len(),
            reg.wf(),
            forall|k: int|
                0 <= k < i ==> !owns_token(reg@, (#[trigger] reg.users@[k]).0@, token@),
        decreases n - i,
    {
        let sessions = &reg.users[i].1.session_tokens;
        let m = sessions.len();
        let mut j: usize = 0;
        let mut found = false;
        while j < m
            invariant
                j <= m,
                m == sessions@.len(),
                !found ==> forall|k: int| 0 <= k < j ==> (#[trigger] sessions@[k]).1.token@
                    != token@,
                found ==> exists|k: int| 0 <= k < sessions@.len() && (#[trigger] sessions@[k]).1.token@
                    == token@,
            decreases m - j,
        {
            if str_eq(sessions[j].1.token.as_str(), token) {
                found = true;
            }
            j = j + 1;
        }
        proof {
            assert(user_wf(reg.users@[i as int].1));
            lemma_users_map_value(reg.users@, i as int);
            if found {
                let k = choose|k: int|
                    0 <= k < sessions@.len() && (#[trigger] sessions@[k]).1.token@ == token@;
                lemma_sessions_map_value(sessions@, k);
                assert(reg@[reg.users@[i as int].0@].sessions.dom().contains(sessions@[k].0@));
            } else {
                assert forall|d: Seq<char>|
                    #[trigger] reg@[reg.users@[i as int].0@].sessions.dom().contains(d)
                        implies reg@[reg.users@[i as int].0@].sessions[d].token != token@ by {
                    crate::registry::lemma_sessions_map_contains(sessions@, d);
                    let k = choose|k: int|
                        0 <= k < sessions@.len() && (#[trigger] sessions@[k]).0@ == d;
                    lemma_sessions_map_value(sessions@, k);
                }
            }
        }
        if found {
            return Some(reg.users[i].0.clone());
        }
        i = i + 1;
    }
    proof {
        assert forall|u: Seq<char>| !owns_token(reg@, u, token@) by {
            if owns_token(reg@, u, token@) {
                crate::registry::lemma_users_map_contains(reg.users@, u);
            }
        }
    }
    None
}

/// A fresh token issued at login resolves to the account that logged in,
/// and to no other: after the session is added, the new token belongs to
/// that account alone.
pub proof fn lemma_fresh_login_token_resolves(
    m: Map<Seq<char>, UserView>,
    u: Seq<char>,
    d: Seq<char>,
    t: Seq<char>,
    now: int,
)
    requires
        m.dom().contains(u),
        !m[u].sessions.dom().contains(d),
        forall|v: Seq<char>| !owns_token(m, v, t),
    ensures
        owns_token(crate::auth::login_insert(m, u, d, t, now), u, t),
        forall|v: Seq<char>|
            owns_token(crate::auth::login_insert(m, u, d, t, now), v, t) ==> v == u,
{
    let m2 = crate::auth::login_insert(m, u, d, t, now);
    assert(m2[u].sessions.dom().contains(d) && m2[u].sessions[d].token == t);
    assert forall|v: Seq<char>| owns_token(m2, v, t) implies v == u by {
        if v != u {
            assert(m2[v] == m[v]);
            assert(!owns_token(m, v, t));
        }
    }
}

/// Adding a session with a token that no session holds keeps the registry's
/// tokens pairwise distinct.
pub proof fn lemma_login_preserves_token_uniqueness(
    m: Map<Seq<char>, UserView>,
    u: Seq<char>,
    d: Seq<char>,
    t: Seq<char>,
    now: int,
)
    requires
        tokens_unique(m),
        m.dom().contains(u),
        forall|v: Seq<char>| !owns_token(m, v, t),
    ensures
        tokens_unique(crate::auth::login_insert(m, u, d, t, now)),
{
    let m2 = crate::auth::login_insert(m, u, d, t, now);
    assert forall|u1: Seq<char>, d1: Seq<char>, u2: Seq<char>, d2: Seq<char>|
        m2.dom().contains(u1) && m2.dom().contains(u2) && #[trigger] m2[u1].sessions.dom().contains(
            d1,
        ) && #[trigger] m2[u2].sessions.dom().contains(d2) && (u1 != u2 || d1 != d2)
        implies m2[u1].sessions[d1].token != m2[u2].sessions[d2].token by {
        if m2[u1].sessions[d1].token == m2[u2].sessions[d2].token {
            if u1 == u && d1 == d {
                if !(u2 == u && d2 == d) {
                    assert(m[u2].sessions.dom().contains(d2));
                    assert(m[u2].sessions[d2] == m2[u2].sessions[d2]);
                    assert(owns_token(m, u2, t));
                }
            } else if u2 == u && d2 == d {
                assert(m[u1].sessions.dom().contains(d1));
                assert(m[u1].sessions[d1] == m2[u1].sessions[d1]);
                assert(owns_token(m, u1, t));
            } else {
                assert(m[u1].sessions.dom().contains(d1));
                assert(m[u2].sessions.dom().contains(d2));
                assert(m[u1].sessions[d1] == m2[u1].sessions[d1]);
                assert(m[u2].sessions[d2] == m2[u2].sessions[d2]);
            }
        }
    }
}

} // verus!
