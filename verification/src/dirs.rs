//! Startup reconciliation between the registry and the `users/` directory
//! listing: which user directories are missing and must be created, and
//! which directories belong to no account. The directory listing itself and
//! the creation of directories are filesystem work and stay outside this
//! crate; these functions only decide.

use vstd::prelude::*;

use crate::registry::{
    lemma_sessions_map_dom_empty, lemma_users_map_contains, lemma_users_map_value, Registry,
    user_view, user_wf,
};
use crate::text::str_eq;

verus! {

/// Some entry of `s` views as `u`.
pub open spec fn names_contain(s: Seq<String>, u: Seq<char>) -> bool {
    exists|i: int| 0 <= i < s.len() && (#[trigger] s[i])@ == u
}

/// Whether `target` is among `names`.
fn contains_name(names: &Vec<String>, target: &str) -> (r: bool)
    ensures
        r == names_contain(names@, target@),
{
    let n = names.len();
    let mut i: usize = 0;
    while i < n
        invariant
            i <= n,
            n == names@.len(),
            forall|j: int| 0 <= j < i ==> (#[trigger] names@[j])@ != target@,
        decreases n - i,
    {
        if str_eq(names[i].as_str(), target) {
            return true;
        }
        i = i + 1;
    }
    false
}

/// The usernames whose directories startup must create: every account that
/// holds at least one session and has no entry in `existing`, exactly those.
pub fn missing_user_dirs(reg: &Registry, existing: &Vec<String>) -> (r: Vec<String>)
    requires
        reg.wf(),
    ensures
        forall|k: int|
            0 <= k < r@.len() ==> reg@.dom().contains((#[trigger] r@[k])@) && !reg@[r@[k]@].sessions.dom().is_empty()
                && !names_contain(existing@, r@[k]@),
        forall|u: Seq<char>|
            reg@.dom().contains(u) && !reg@[u].sessions.dom().is_empty() && !names_contain(
                existing@,
                u,
            ) ==> names_contain(r@, u),
{
    let n = reg.users.len();
    let mut r: Vec<String> = Vec::new();
    let mut i: usize = 0;
    while i < n
        invariant
            i <= n,
            n == reg.users@.len(),
            reg.wf(),
            forall|k: int|
                0 <= k < r@.len() ==> reg@.dom().contains((#[trigger] r@[k])@)
                    && !reg@[r@[k]@].sessions.dom().is_empty() && !names_contain(
                    existing@,
                    r@[k]@,
                ),
            forall|j: int|
                0 <= j < i ==> (!user_view(
                    (#[trigger] reg.users@[j]).1,
                ).sessions.dom().is_empty() && !names_contain(existing@, reg.users@[j].0@)
                    ==> names_contain(r@, reg.users@[j].0@)),
        decreases n - i,
    {
        proof {
            assert(user_wf(reg.users@[i as int].1));
            lemma_sessions_map_dom_empty(reg.users@[i as int].1.session_tokens@);
            lemma_users_map_value(reg.users@, i as int);
        }
        let ghost old_r = r@;
        if reg.users[i].1.session_tokens.len() > 0 && !contains_name(
            existing,
            reg.users[i].0.as_str(),
        ) {
            r.push(reg.users[i].0.clone());
            proof {
                assert(r@[r@.len() - 1]@ == reg.users@[i as int].0@);
                assert(forall|k: int| 0 <= k < old_r.len() ==> r@[k] == old_r[k]);
            }
        }
        i = i + 1;
    }
    proof {
        assert forall|u: Seq<char>|
            reg@.dom().contains(u) && !reg@[u].sessions.dom().is_empty() && !names_contain(
                existing@,
                u,
            ) implies names_contain(r@, u) by {
            lemma_users_map_contains(reg.users@, u);
            let j = choose|j: int| 0 <= j < reg.users@.len() && (#[trigger] reg.users@[j]).0@ == u;
            lemma_users_map_value(reg.users@, j);
        }
    }
    r
}

/// The directory names in `existing` that belong to no registered account,
/// exactly those: startup reports them as orphans.
pub fn orphan_dirs(reg: &Registry, existing: &Vec<String>) -> (r: Vec<String>)
    requires
        reg.wf(),
    ensures
        forall|k: int|
            0 <= k < r@.len() ==> !reg@.dom().contains((#[trigger] r@[k])@) && names_contain(
                existing@,
                r@[k]@,
            ),
        forall|k: int|
            0 <= k < existing@.len() && !reg@.dom().contains((#[trigger] existing@[k])@)
                ==> names_contain(r@, existing@[k]@),
{
    let n = existing.len();
    let mut r: Vec<String> = Vec::new();
    let mut i: usize = 0;
    while i < n
        invariant
            i <= n,
            n == existing@.len(),
            reg.wf(),
            forall|k: int|
                0 <= k < r@.len() ==> !reg@.dom().contains((#[trigger] r@[k])@) && names_contain(
                    existing@,
                    r@[k]@,
                ),
            forall|k: int|
                0 <= k < i && !reg@.dom().contains((#[trigger] existing@[k])@) ==> names_contain(
                    r@,
                    existing@[k]@,
                ),
        decreases n - i,
    {
        let ghost old_r = r@;
        if reg.find_user(existing[i].as_str()).is_none() {
            r.push(existing[i].clone());
            proof {
                assert(r@[r@.len() - 1]@ == existing@[i as int]@);
                assert(forall|k: int| 0 <= k < old_r.len() ==> r@[k] == old_r[k]);
            }
        }
        i = i + 1;
    }
    r
}

} // verus!
