//! Account creation and login.
//!
//! Registration validates the username, applies the registration policy
//! (with the bootstrap exception: the first account may register even when
//! registration is disabled), enrolls a fresh TOTP generator and returns its
//! provisioning URI. Login checks the submitted code against the account's
//! generator and, for a fresh device name, issues an opaque session token.
//! Both failure modes of login answer with the same reason, so that account
//! names cannot be enumerated.

use vstd::prelude::*;

use crate::clock::now_timestamp;
use crate::errors::ErrorReason;
use crate::otp::{generate_totp_secret, new_totp, totp_check_current, totp_url};
use crate::registry::{
    lemma_sessions_map_contains, lemma_sessions_map_push, lemma_users_map_contains,
    lemma_users_map_push, lemma_users_map_update, Registry, SessionToken, SessionView, User,
    UserView, user_wf,
};
use crate::token::{random_token, TOKEN_LENGTH};
use crate::username::{is_alnum_char, is_valid_username, lemma_valid_username_no_colon, valid_username};

verus! {

/// Why a registration attempt is rejected, or `None` when the account will
/// be created. The second test carries the bootstrap exception: a disabled
/// registration still admits the very first account.
pub open spec fn register_check(
    m: Map<Seq<char>, UserView>,
    registration_enabled: bool,
    u: Seq<char>,
) -> Option<ErrorReason> {
    if !valid_username(u) {
        Some(ErrorReason::InvalidUsername)
    } else if !registration_enabled && !m.dom().is_empty() {
        Some(ErrorReason::RegistrationDisabled)
    } else if m.dom().contains(u) {
        Some(ErrorReason::UsernameExists)
    } else {
        None
    }
}

/// Creates the account `username` with a fresh TOTP generator and no
/// sessions, and returns the generator's provisioning URI.
pub fn register(reg: &mut Registry, registration_enabled: bool, username: &str) -> (r: Result<
    String,
    ErrorReason,
>)
    requires
        old(reg).wf(),
    ensures
        final(reg).wf(),
        match r {
            Err(e) => register_check(old(reg)@, registration_enabled, username@) == Some(e)
                && final(reg)@ == old(reg)@,
            Ok(url) => {
                &&& register_check(old(reg)@, registration_enabled, username@) is None
                &&& final(reg)@.dom() == old(reg)@.dom().insert(username@)
                &&& forall|k: Seq<char>|
                    k != username@ && old(reg)@.dom().contains(k) ==> final(reg)@[k] == old(
                        reg,
                    )@[k]
                &&& final(reg)@[username@].sessions == Map::<Seq<char>, SessionView>::empty()
                &&& url@.len() >= 15 && url@.subrange(0, 15) == "otpauth://totp/"@
            },
        },
{
    if !is_valid_username(username) {
        return Err(ErrorReason::InvalidUsername);
    }
    if !registration_enabled && !reg.is_empty() {
        return Err(ErrorReason::RegistrationDisabled);
    }
    if let Some(_) = reg.find_user(username) {
        return Err(ErrorReason::UsernameExists);
    }
    let now = now_timestamp();
    let secret = generate_totp_secret();
    proof {
        lemma_valid_username_no_colon(username@);
    }
    // Unreachable: the secret is twenty bytes and a valid username has no
    // colon, so the enrollment parameters always pass validation.
    let otp = if let Some(t) = new_totp(secret, username.to_owned()) {
        t
    } else {
        return Err(ErrorReason::InvalidUsername);
    };
    let url = totp_url(&otp);
    let entry = (username.to_owned(), User { registered_on: now, otp, session_tokens: Vec::new() });
    let ghost gentry = entry;
    let ghost old_users = reg.users@;
    reg.users.push(entry);
    proof {
        lemma_users_map_push(old_users, gentry.0, gentry.1);
        lemma_users_map_contains(old_users, username@);
        assert(forall|j: int| 0 <= j < old_users.len() ==> (#[trigger] old_users[j]).0@ != username@);
        assert(reg.wf());
        assert(reg@.dom() =~= old(reg)@.dom().insert(username@));
    }
    Ok(url)
}

/// A valid, unregistered username registers exactly once: with registration
/// open, the attempt is accepted, and on the grown registry any further
/// attempt with the same username fails with UsernameExists.
///
/// (Under the bootstrap exception — registration disabled, empty registry —
/// the first account is still admitted, but a second attempt then fails
/// with RegistrationDisabled before the username is ever compared, which is
/// why this statement fixes registration as enabled.)
pub proof fn lemma_register_exactly_once(
    m: Map<Seq<char>, UserView>,
    u: Seq<char>,
    m2: Map<Seq<char>, UserView>,
)
    requires
        valid_username(u),
        !m.dom().contains(u),
        m2.dom() == m.dom().insert(u),
    ensures
        register_check(m, true, u) is None,
        register_check(m2, true, u) == Some(ErrorReason::UsernameExists),
{
    assert(m2.dom().contains(u));
}

/// Two logins from distinct device names on the same account both succeed —
/// the registry serializes them, one exclusive mutation at a time — and both
/// sessions are visible afterwards, each with its own token: no lost update.
pub proof fn lemma_two_device_logins(
    m: Map<Seq<char>, UserView>,
    u: Seq<char>,
    d1: Seq<char>,
    d2: Seq<char>,
    t1: Seq<char>,
    t2: Seq<char>,
    now1: int,
    now2: int,
)
    requires
        m.dom().contains(u),
        !m[u].sessions.dom().contains(d1),
        !m[u].sessions.dom().contains(d2),
        d1 != d2,
    ensures
        login_outcome(m, u, true, d1) is Ok,
        login_outcome(login_insert(m, u, d1, t1, now1), u, true, d2) is Ok,
        ({
            let m2 = login_insert(login_insert(m, u, d1, t1, now1), u, d2, t2, now2);
            &&& m2[u].sessions.dom().contains(d1)
            &&& m2[u].sessions.dom().contains(d2)
            &&& m2[u].sessions[d1].token == t1
            &&& m2[u].sessions[d2].token == t2
        }),
{
}

/// The outcome login reaches once the registry, the code check and the
/// device name are fixed: an unknown username or a failed code answer
/// uniformly, a device that already has a session is refused, anything else
/// succeeds.
pub open spec fn login_outcome(
    m: Map<Seq<char>, UserView>,
    u: Seq<char>,
    otp_ok: bool,
    d: Seq<char>,
) -> Result<(), ErrorReason> {
    if !m.dom().contains(u) || !otp_ok {
        Err(ErrorReason::IncorrectLoginOrOtp)
    } else if m[u].sessions.dom().contains(d) {
        Err(ErrorReason::DeviceNameExists)
    } else {
        Ok(())
    }
}

/// The registry after a successful login of `u` from device `d`: the one
/// new session, everything else kept.
pub open spec fn login_insert(
    m: Map<Seq<char>, UserView>,
    u: Seq<char>,
    d: Seq<char>,
    token: Seq<char>,
    now: int,
) -> Map<Seq<char>, UserView> {
    m.insert(
        u,
        UserView {
            registered_on: m[u].registered_on,
            otp: m[u].otp,
            sessions: m[u].sessions.insert(d, SessionView { token: token, created_on: now }),
        },
    )
}

/// An incorrect code never creates a session: with the code check failed,
/// login answers IncorrectLoginOrOtp whatever the account and device, and —
/// by apply_login's contract on every erring outcome — leaves the registry
/// unchanged.
pub proof fn lemma_failed_code_never_logs_in(m: Map<Seq<char>, UserView>, u: Seq<char>, d: Seq<char>)
    ensures
        login_outcome(m, u, false, d) == Err::<(), ErrorReason>(ErrorReason::IncorrectLoginOrOtp),
{
}

/// Records the result of a code check: on success and a fresh device name,
/// inserts the session `(device_name -> token, now)` for `username`. This is
/// the whole login decision once the code check's outcome is in hand; it is
/// exact for either outcome.
pub fn apply_login(
    reg: &mut Registry,
    username: &str,
    otp_ok: bool,
    device_name: String,
    token: String,
    now: i64,
) -> (r: Result<(), ErrorReason>)
    requires
        old(reg).wf(),
    ensures
        final(reg).wf(),
        r == login_outcome(old(reg)@, username@, otp_ok, device_name@),
        r is Err ==> final(reg)@ == old(reg)@,
        r is Ok ==> final(reg)@ == login_insert(
            old(reg)@,
            username@,
            device_name@,
            token@,
            now as int,
        ),
{
    let idx = match reg.find_user(username) {
        None => {
            return Err(ErrorReason::IncorrectLoginOrOtp);
        },
        Some(i) => i,
    };
    if !otp_ok {
        return Err(ErrorReason::IncorrectLoginOrOtp);
    }
    if let Some(_) = crate::registry::find_session(
        &reg.users[idx].1.session_tokens,
        device_name.as_str(),
    ) {
        return Err(ErrorReason::DeviceNameExists);
    }
    let st = SessionToken { token, created_on: now };
    let ghost gst = st;
    let ghost gdev = device_name;
    let ghost old_users = reg.users@;
    let entry = &mut reg.users[idx];
    let ghost old_sessions = entry.1.session_tokens@;
    entry.1.session_tokens.push((device_name, st));
    proof {
        assert(user_wf(old_users[idx as int].1));
        lemma_sessions_map_contains(old_sessions, gdev@);
        assert(forall|k: int|
            0 <= k < old_sessions.len() ==> (#[trigger] old_sessions[k]).0@ != gdev@);
        let news = reg.users@[idx as int].1.session_tokens@;
        assert(news =~= old_sessions.push((gdev, gst)));
        assert forall|i: int, j: int| 0 <= i < j < news.len() implies (#[trigger] news[i]).0@ != (
        #[trigger] news[j]).0@ by {
            if j < news.len() - 1 {
                assert(old_sessions[i].0@ != old_sessions[j].0@);
            } else {
                assert(news[j].0@ == gdev@);
                assert(news[i] == old_sessions[i]);
            }
        }
        lemma_sessions_map_push(old_sessions, gdev, gst);
        lemma_users_map_update(old_users, idx as int, reg.users@[idx as int]);
        assert(forall|k: int|
            0 <= k < reg.users@.len() ==> (#[trigger] reg.users@[k]).0@ == old_users[k].0@);
        assert(reg.wf());
        assert(reg@ =~= login_insert(old(reg)@, username@, device_name@, token@, now as int));
    }
    Ok(())
}

/// Checks the submitted code against `username`'s TOTP generator and, when
/// it matches the current or an adjacent window and the device name is
/// fresh, issues a 32-character alphanumeric session token.
pub fn login(reg: &mut Registry, username: &str, otp_code: &str, device_name: String) -> (r: Result<
    String,
    ErrorReason,
>)
    requires
        old(reg).wf(),
    ensures
        final(reg).wf(),
        r is Err ==> final(reg)@ == old(reg)@,
        r matches Err(e) ==> e == ErrorReason::IncorrectLoginOrOtp || e
            == ErrorReason::DeviceNameExists,
        !old(reg)@.dom().contains(username@) ==> (r matches Err(e) && e
            == ErrorReason::IncorrectLoginOrOtp),
        r matches Err(e) && e == ErrorReason::DeviceNameExists ==> old(reg)@.dom().contains(
            username@,
        ) && old(reg)@[username@].sessions.dom().contains(device_name@),
        r matches Ok(token) ==> token@.len() == TOKEN_LENGTH && (forall|i: int|
            0 <= i < token@.len() ==> is_alnum_char(#[trigger] token@[i])),
        r matches Ok(token) ==> old(reg)@.dom().contains(username@) && !old(
            reg,
        )@[username@].sessions.dom().contains(device_name@),
        r matches Ok(token) ==> exists|now: int|
            final(reg)@ == #[trigger] login_insert(old(reg)@, username@, device_name@, token@, now),
{
    let idx = match reg.find_user(username) {
        None => {
            return Err(ErrorReason::IncorrectLoginOrOtp);
        },
        Some(i) => i,
    };
    let ok = totp_check_current(&reg.users[idx].1.otp, otp_code);
    let token = random_token();
    let now = now_timestamp();
    let issued = token.clone();
    match apply_login(reg, username, ok, device_name, issued, now) {
        Err(e) => Err(e),
        Ok(()) => {
            let r: Result<String, ErrorReason> = Ok(token);
            proof {
                assert(r matches Ok(tk) ==> reg@ == login_insert(
                    old(reg)@,
                    username@,
                    device_name@,
                    tk@,
                    now as int,
                ));
                assert(r matches Ok(tk) ==> exists|t: int|
                    reg@ == #[trigger] login_insert(old(reg)@, username@, device_name@, tk@, t));
            }
            r
        },
    }
}

} // verus!
