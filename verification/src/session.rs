//! Session and device management on an authenticated account: listing the
//! sessions and deleting a device's token.
//!
//! An account must always retain at least one reachable session: login proves
//! identity through the stored TOTP secret, but a token-less account is
//! subject to sweeping. Deleting the sole remaining session is therefore
//! refused.

use vstd::prelude::*;

use crate::errors::ErrorReason;
use crate::registry::{
    find_session, lemma_sessions_map_len, lemma_sessions_map_remove, lemma_sessions_map_value,
    lemma_users_map_update, Registry, UserView, session_keys_unique, sessions_map, user_wf,
};

verus! {

/// Why deleting `d`'s token on account `u` is refused, or `None` when the
/// session will be removed. An unknown username answers as an unknown device
/// name does.
pub open spec fn delete_token_check(
    m: Map<Seq<char>, UserView>,
    u: Seq<char>,
    d: Seq<char>,
) -> Option<ErrorReason> {
    if !m.dom().contains(u) {
        Some(ErrorReason::DeviceNameNotFound)
    } else if m[u].sessions.dom().contains(d) && m[u].sessions.dom().len() == 1 {
        Some(ErrorReason::CannotDeleteLastAuthToken)
    } else if !m[u].sessions.dom().contains(d) {
        Some(ErrorReason::DeviceNameNotFound)
    } else {
        None
    }
}

/// The registry after `d`'s session on `u` was removed.
pub open spec fn delete_token_result(
    m: Map<Seq<char>, UserView>,
    u: Seq<char>,
    d: Seq<char>,
) -> Map<Seq<char>, UserView> {
    m.insert(
        u,
        UserView {
            registered_on: m[u].registered_on,
            otp: m[u].otp,
            sessions: m[u].sessions.remove(d),
        },
    )
}

/// Removes the session of device `device_name` on account `username`,
/// unless it is the account's last one.
pub fn delete_token(reg: &mut Registry, username: &str, device_name: &str) -> (r: Result<
    (),
    ErrorReason,
>)
    requires
        old(reg).wf(),
    ensures
        final(reg).wf(),
        match r {
            Err(e) => delete_token_check(old(reg)@, username@, device_name@) == Some(e)
                && final(reg)@ == old(reg)@,
            Ok(()) => delete_token_check(old(reg)@, username@, device_name@) is None
                && final(reg)@ == delete_token_result(old(reg)@, username@, device_name@),
        },
{
    let idx = match reg.find_user(username) {
        None => {
            return Err(ErrorReason::DeviceNameNotFound);
        },
        Some(i) => i,
    };
    proof {
        assert(user_wf(reg.users@[idx as int].1));
        lemma_sessions_map_len(reg.users@[idx as int].1.session_tokens@);
    }
    let is_last = reg.users[idx].1.session_tokens.len() == 1;
    let pos = match find_session(&reg.users[idx].1.session_tokens, device_name) {
        None => {
            return Err(ErrorReason::DeviceNameNotFound);
        },
        Some(j) => j,
    };
    if is_last {
        return Err(ErrorReason::CannotDeleteLastAuthToken);
    }
    let ghost old_users = reg.users@;
    let ghost old_sessions = reg.users@[idx as int].1.session_tokens@;
    let entry = &mut reg.users[idx];
    let _removed = entry.1.session_tokens.remove(pos);
    proof {
        lemma_sessions_map_remove(old_sessions, pos as int);
        let news = reg.users@[idx as int].1.session_tokens@;
        assert(news =~= old_sessions.remove(pos as int));
        assert forall|i: int, j: int| 0 <= i < j < news.len() implies (#[trigger] news[i]).0@ != (
        #[trigger] news[j]).0@ by {
            let oi = if i < pos as int {
                i
            } else {
                i + 1
            };
            let oj = if j < pos as int {
                j
            } else {
                j + 1
            };
            assert(old_sessions[oi].0@ != old_sessions[oj].0@);
        }
        lemma_users_map_update(old_users, idx as int, reg.users@[idx as int]);
        assert(forall|k: int|
            0 <= k < reg.users@.len() ==> (#[trigger] reg.users@[k]).0@ == old_users[k].0@);
        assert(reg.wf());
        assert(reg@ =~= delete_token_result(old(reg)@, username@, device_name@));
    }
    Ok(())
}

/// Deleting the sole remaining session is always refused with
/// CannotDeleteLastAuthToken, whatever the account and device.
pub proof fn lemma_last_session_undeletable(m: Map<Seq<char>, UserView>, u: Seq<char>, d: Seq<char>)
    requires
        m.dom().contains(u),
        m[u].sessions.dom().contains(d),
        m[u].sessions.dom().len() == 1,
    ensures
        delete_token_check(m, u, d) == Some(ErrorReason::CannotDeleteLastAuthToken),
{
}

/// One listed session: the device name and when it logged in.
pub struct TokenInfo {
    pub device: String,
    pub created_on: i64,
}

/// Lists the sessions of `username`: one entry per device, in the account's
/// own order, each carrying that session's creation time.
pub fn whoami(reg: &Registry, username: &str) -> (r: Vec<TokenInfo>)
    requires
        reg.wf(),
        reg@.dom().contains(username@),
    ensures
        r@.len() == reg@[username@].sessions.dom().len(),
        forall|i: int|
            0 <= i < r@.len() ==> reg@[username@].sessions.dom().contains(
                (#[trigger] r@[i]).device@,
            ) && reg@[username@].sessions[r@[i].device@].created_on == r@[i].created_on as int,
        forall|i: int, j: int| 0 <= i < j < r@.len() ==> (#[trigger] r@[i]).device@ != (
        #[trigger] r@[j]).device@,
{
    let idx = match reg.find_user(username) {
        None => {
            // Unreachable: the username is registered.
            return Vec::new();
        },
        Some(i) => i,
    };
    proof {
        assert(user_wf(reg.users@[idx as int].1));
        lemma_sessions_map_len(reg.users@[idx as int].1.session_tokens@);
    }
    let sessions = &reg.users[idx].1.session_tokens;
    let n = sessions.len();
    let mut r: Vec<TokenInfo> = Vec::new();
    let mut i: usize = 0;
    while i < n
        invariant
            i <= n,
            n == sessions@.len(),
            session_keys_unique(sessions@),
            sessions_map(sessions@) == reg@[username@].sessions,
            r@.len() == i,
            forall|k: int|
                0 <= k < i ==> (#[trigger] r@[k]).device@ == sessions@[k].0@
                    && r@[k].created_on == sessions@[k].1.created_on,
        decreases n - i,
    {
        r.push(
            TokenInfo {
                device: sessions[i].0.clone(),
                created_on: sessions[i].1.created_on,
            },
        );
        i = i + 1;
    }
    proof {
        assert forall|k: int|
            0 <= k < r@.len() implies reg@[username@].sessions.dom().contains(
            (#[trigger] r@[k]).device@,
        ) && reg@[username@].sessions[r@[k].device@].created_on == r@[k].created_on as int by {
            lemma_sessions_map_value(sessions@, k);
        }
    }
    r
}

} // verus!
