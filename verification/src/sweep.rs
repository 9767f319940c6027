//! The expiry sweep: one pass over the registry removing every account that
//! has no session and whose registration lies further back than the grace
//! period. Accounts with at least one session are never swept. The caller
//! runs this on a fixed interval, one exclusive mutation per tick, strictly
//! sequential.

use vstd::prelude::*;

use crate::consts::ACCOUNT_WITHOUT_TOKEN_EXPIRATION_SECS;
use crate::registry::{
    lemma_sessions_map_dom_empty, lemma_users_map_contains, lemma_users_map_remove,
    lemma_users_map_value, Registry, UserView, user_view, user_wf, users_map,
};

verus! {

/// An account survives a sweep at time `now`: it holds a session, or its
/// registration is still within the grace period.
pub open spec fn keep_account(u: UserView, now: int) -> bool {
    !u.sessions.dom().is_empty() || now - u.registered_on
        < ACCOUNT_WITHOUT_TOKEN_EXPIRATION_SECS
}

/// The registry after a sweep at time `now`: exactly the surviving accounts,
/// each unchanged.
pub open spec fn swept(m: Map<Seq<char>, UserView>, now: int) -> Map<Seq<char>, UserView> {
    Map::new(|k: Seq<char>| m.dom().contains(k) && keep_account(m[k], now), |k: Seq<char>| m[k])
}

/// Removes every account that has no session and registered more than the
/// grace period before `now`.
pub fn sweep(reg: &mut Registry, now: i64)
    requires
        old(reg).wf(),
    ensures
        final(reg).wf(),
        final(reg)@ == swept(old(reg)@, now as int),
{
    let ghost orig = reg.users@;
    let mut i: usize = 0;
    while i < reg.users.len()
        invariant
            reg.wf(),
            i <= reg.users@.len(),
            swept(users_map(reg.users@), now as int) == swept(users_map(orig), now as int),
            forall|k: int|
                0 <= k < i ==> keep_account(
                    user_view((#[trigger] reg.users@[k]).1),
                    now as int,
                ),
        decreases reg.users@.len() - i,
    {
        proof {
            assert(user_wf(reg.users@[i as int].1));
            lemma_sessions_map_dom_empty(reg.users@[i as int].1.session_tokens@);
        }
        let has_session = reg.users[i].1.session_tokens.len() > 0;
        let fresh_enough = (now as i128) - (reg.users[i].1.registered_on as i128) < (
        ACCOUNT_WITHOUT_TOKEN_EXPIRATION_SECS as i128);
        if has_session || fresh_enough {
            i = i + 1;
        } else {
            let ghost pre = reg.users@;
            reg.users.remove(i);
            proof {
                lemma_users_map_value(pre, i as int);
                lemma_users_map_remove(pre, i as int);
                assert(!keep_account(user_view(pre[i as int].1), now as int));
                assert forall|a: int, b: int|
                    0 <= a < b < reg.users@.len() implies (#[trigger] reg.users@[a]).0@ != (
                #[trigger] reg.users@[b]).0@ by {
                    let oa = if a < i as int {
                        a
                    } else {
                        a + 1
                    };
                    let ob = if b < i as int {
                        b
                    } else {
                        b + 1
                    };
                    assert(reg.users@[a] == pre[oa] && reg.users@[b] == pre[ob]);
                    assert(pre[oa].0@ != pre[ob].0@);
                }
                assert forall|k: int| 0 <= k < reg.users@.len() implies user_wf(
                    (#[trigger] reg.users@[k]).1,
                ) by {
                    let ok = if k < i as int {
                        k
                    } else {
                        k + 1
                    };
                    assert(reg.users@[k] == pre[ok]);
                    assert(user_wf(pre[ok].1));
                }
                assert(swept(users_map(reg.users@), now as int) =~= swept(
                    users_map(pre),
                    now as int,
                ));
            }
        }
    }
    proof {
        assert forall|k: Seq<char>| users_map(reg.users@).dom().contains(k) implies keep_account(
            users_map(reg.users@)[k],
            now as int,
        ) by {
            lemma_users_map_contains(reg.users@, k);
            let j = choose|j: int| 0 <= j < reg.users@.len() && (#[trigger] reg.users@[j]).0@ == k;
            lemma_users_map_value(reg.users@, j);
        }
        assert(users_map(reg.users@) =~= swept(users_map(reg.users@), now as int));
    }
}

/// Two immediately consecutive sweeps agree: the first pass decides the set
/// to remove, and on its result a second pass at the same instant removes
/// nothing.
pub proof fn lemma_sweep_idempotent(m: Map<Seq<char>, UserView>, now: int)
    ensures
        swept(swept(m, now), now) == swept(m, now),
{
    assert(swept(swept(m, now), now) =~= swept(m, now));
}

} // verus!
