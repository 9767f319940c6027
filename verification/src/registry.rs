//! The account registry: every account with its sessions, as one in-memory
//! value. The registry is modelled as a map from username to account view;
//! the executable representation is an association list, unique in its
//! usernames and, within each account, unique in its device names.
//!
//! The callers hold the registry behind one reader/writer lock and persist a
//! snapshot after every mutation; that discipline lives outside this crate.
//! Every mutation here is a plain function from the old registry value to the
//! new one, with a contract over the map view.

use vstd::prelude::*;

use crate::text::str_eq;

verus! {

/// One login session: the opaque bearer token and its creation time, in
/// seconds since the Unix epoch.
pub struct SessionToken {
    pub token: String,
    pub created_on: i64,
}

/// One account: its registration time (seconds since the Unix epoch), the
/// TOTP generator it enrolled with, and its sessions keyed by device name.
pub struct User {
    pub registered_on: i64,
    pub otp: totp_rs::TOTP,
    pub session_tokens: Vec<(String, SessionToken)>,
}

/// The whole registry: accounts keyed by username.
pub struct Registry {
    pub users: Vec<(String, User)>,
}

/// Mathematical view of a session.
pub ghost struct SessionView {
    pub token: Seq<char>,
    pub created_on: int,
}

/// Mathematical view of an account. The TOTP generator is carried as an
/// opaque value: contracts can say it is kept or replaced, nothing more.
pub ghost struct UserView {
    pub registered_on: int,
    pub otp: totp_rs::TOTP,
    pub sessions: Map<Seq<char>, SessionView>,
}

pub open spec fn session_view(t: SessionToken) -> SessionView {
    SessionView { token: t.token@, created_on: t.created_on as int }
}

/// The sessions of one account, as a map from device name to session.
pub open spec fn sessions_map(s: Seq<(String, SessionToken)>) -> Map<Seq<char>, SessionView>
    decreases s.len(),
{
    if s.len() == 0 {
        Map::empty()
    } else {
        sessions_map(s.drop_last()).insert(s.last().0@, session_view(s.last().1))
    }
}

/// Device names are pairwise distinct.
pub open spec fn session_keys_unique(s: Seq<(String, SessionToken)>) -> bool {
    forall|i: int, j: int| 0 <= i < j < s.len() ==> (#[trigger] s[i]).0@ != (#[trigger] s[j]).0@
}

pub open spec fn user_wf(u: User) -> bool {
    session_keys_unique(u.session_tokens@)
}

pub open spec fn user_view(u: User) -> UserView {
    UserView {
        registered_on: u.registered_on as int,
        otp: u.otp,
        sessions: sessions_map(u.session_tokens@),
    }
}

/// The registry's accounts, as a map from username to account view.
pub open spec fn users_map(s: Seq<(String, User)>) -> Map<Seq<char>, UserView>
    decreases s.len(),
{
    if s.len() == 0 {
        Map::empty()
    } else {
        users_map(s.drop_last()).insert(s.last().0@, user_view(s.last().1))
    }
}

/// Usernames are pairwise distinct.
pub open spec fn user_keys_unique(s: Seq<(String, User)>) -> bool {
    forall|i: int, j: int| 0 <= i < j < s.len() ==> (#[trigger] s[i]).0@ != (#[trigger] s[j]).0@
}

impl View for Registry {
    type V = Map<Seq<char>, UserView>;

    open spec fn view(&self) -> Map<Seq<char>, UserView> {
        users_map(self.users@)
    }
}

impl Registry {
    /// Usernames unique, and every account well-formed.
    pub open spec fn wf(&self) -> bool {
        &&& user_keys_unique(self.users@)
        &&& forall|i: int| 0 <= i < self.users@.len() ==> user_wf((#[trigger] self.users@[i]).1)
    }

    /// A registry with no accounts at all.
    pub fn new() -> (r: Registry)
        ensures
            r.wf(),
            r@ == Map::<Seq<char>, UserView>::empty(),
    {
        Registry { users: Vec::new() }
    }

    /// Whether no account is registered.
    pub fn is_empty(&self) -> (r: bool)
        ensures
            r == self@.dom().is_empty(),
    {
        proof {
            lemma_users_map_dom_empty(self.users@);
        }
        self.users.len() == 0
    }

    /// Position of the account named `name`, if it is registered.
    pub(crate) fn find_user(&self, name: &str) -> (r: Option<usize>)
        requires
            self.wf(),
        ensures
            match r {
                Some(i) => i < self.users@.len() && self.users@[i as int].0@ == name@
                    && self@.dom().contains(name@) && self@[name@] == user_view(
                    self.users@[i as int].1,
                ),
                None => !self@.dom().contains(name@),
            },
    {
        let n = self.users.len();
        let mut i: usize = 0;
        while i < n
            invariant
                i <= n,
                n == self.users@.len(),
                self.wf(),
                forall|j: int| 0 <= j < i ==> (#[trigger] self.users@[j]).0@ != name@,
            decreases n - i,
        {
            if str_eq(self.users[i].0.as_str(), name) {
                proof {
                    lemma_users_map_value(self.users@, i as int);
                }
                return Some(i);
            }
            i = i + 1;
        }
        proof {
            lemma_users_map_contains(self.users@, name@);
        }
        None
    }
}

/// Position of the session for `device`, if that device name has one.
pub(crate) fn find_session(s: &Vec<(String, SessionToken)>, device: &str) -> (r: Option<usize>)
    requires
        session_keys_unique(s@),
    ensures
        match r {
            Some(j) => j < s@.len() && s@[j as int].0@ == device@ && sessions_map(
                s@,
            ).dom().contains(device@) && sessions_map(s@)[device@] == session_view(
                s@[j as int].1,
            ),
            None => !sessions_map(s@).dom().contains(device@),
        },
{
    let n = s.len();
    let mut j: usize = 0;
    while j < n
        invariant
            j <= n,
            n == s@.len(),
            session_keys_unique(s@),
            forall|k: int| 0 <= k < j ==> (#[trigger] s@[k]).0@ != device@,
        decreases n - j,
    {
        if str_eq(s[j].0.as_str(), device) {
            proof {
                lemma_sessions_map_value(s@, j as int);
            }
            return Some(j);
        }
        j = j + 1;
    }
    proof {
        lemma_sessions_map_contains(s@, device@);
    }
    None
}

// ---------------------------------------------------------------------------
// How the session map follows the session list.
// ---------------------------------------------------------------------------

pub proof fn lemma_sessions_map_contains(s: Seq<(String, SessionToken)>, d: Seq<char>)
    ensures
        sessions_map(s).dom().contains(d) <==> exists|i: int|
            0 <= i < s.len() && (#[trigger] s[i]).0@ == d,
    decreases s.len(),
{
    if s.len() > 0 {
        lemma_sessions_map_contains(s.drop_last(), d);
        if s.last().0@ == d {
            assert(s[s.len() - 1].0@ == d);
        } else {
            if sessions_map(s).dom().contains(d) {
                let i = choose|i: int| 0 <= i < s.drop_last().len() && (#[trigger] s.drop_last()[i]).0@ == d;
                assert(s[i].0@ == d);
            }
            if exists|i: int| 0 <= i < s.len() && (#[trigger] s[i]).0@ == d {
                let i = choose|i: int| 0 <= i < s.len() && (#[trigger] s[i]).0@ == d;
                assert(i < s.len() - 1);
                assert(s.drop_last()[i].0@ == d);
            }
        }
    }
}

pub proof fn lemma_sessions_map_value(s: Seq<(String, SessionToken)>, i: int)
    requires
        session_keys_unique(s),
        0 <= i < s.len(),
    ensures
        sessions_map(s).dom().contains(s[i].0@),
        sessions_map(s)[s[i].0@] == session_view(s[i].1),
    decreases s.len(),
{
    if i < s.len() - 1 {
        assert(session_keys_unique(s.drop_last()));
        assert(s.drop_last()[i] == s[i]);
        lemma_sessions_map_value(s.drop_last(), i);
        assert(s[i].0@ != s.last().0@);
    }
}

pub proof fn lemma_sessions_map_len(s: Seq<(String, SessionToken)>)
    requires
        session_keys_unique(s),
    ensures
        sessions_map(s).dom().finite(),
        sessions_map(s).dom().len() == s.len(),
    decreases s.len(),
{
    if s.len() > 0 {
        assert(session_keys_unique(s.drop_last()));
        lemma_sessions_map_len(s.drop_last());
        lemma_sessions_map_contains(s.drop_last(), s.last().0@);
    }
}

pub proof fn lemma_sessions_map_push(s: Seq<(String, SessionToken)>, name: String, t: SessionToken)
    ensures
        sessions_map(s.push((name, t))) == sessions_map(s).insert(name@, session_view(t)),
{
    assert(s.push((name, t)).drop_last() =~= s);
    assert(s.push((name, t)).last() == (name, t));
}

pub proof fn lemma_sessions_map_remove(s: Seq<(String, SessionToken)>, i: int)
    requires
        session_keys_unique(s),
        0 <= i < s.len(),
    ensures
        sessions_map(s.remove(i)) =~= sessions_map(s).remove(s[i].0@),
    decreases s.len(),
{
    if i == s.len() - 1 {
        assert(s.remove(i) =~= s.drop_last());
        lemma_sessions_map_contains(s.drop_last(), s[i].0@);
        assert(forall|j: int| 0 <= j < s.drop_last().len() ==> (#[trigger] s.drop_last()[j]).0@ != s[i].0@);
        assert(sessions_map(s.drop_last()) =~= sessions_map(s).remove(s[i].0@));
    } else {
        assert(session_keys_unique(s.drop_last()));
        assert(s.drop_last()[i] == s[i]);
        lemma_sessions_map_remove(s.drop_last(), i);
        assert(s.remove(i).drop_last() =~= s.drop_last().remove(i));
        assert(s.remove(i).last() == s.last());
        assert(s[i].0@ != s.last().0@);
        assert(sessions_map(s.remove(i)) =~= sessions_map(s).remove(s[i].0@));
    }
}

pub proof fn lemma_sessions_map_dom_empty(s: Seq<(String, SessionToken)>)
    ensures
        sessions_map(s).dom().is_empty() <==> s.len() == 0,
{
    if s.len() > 0 {
        lemma_sessions_map_contains(s, s[0].0@);
        assert(s[0].0@ == s[0].0@);
        assert(sessions_map(s).dom().contains(s[0].0@));
    } else {
        assert(sessions_map(s).dom() =~= Set::empty());
    }
}

// ---------------------------------------------------------------------------
// How the registry map follows the account list.
// ---------------------------------------------------------------------------

pub proof fn lemma_users_map_dom_empty(s: Seq<(String, User)>)
    ensures
        users_map(s).dom().is_empty() <==> s.len() == 0,
{
    if s.len() > 0 {
        lemma_users_map_contains(s, s[0].0@);
        assert(s[0].0@ == s[0].0@);
        assert(users_map(s).dom().contains(s[0].0@));
    } else {
        assert(users_map(s).dom() =~= Set::empty());
    }
}

pub proof fn lemma_users_map_contains(s: Seq<(String, User)>, u: Seq<char>)
    ensures
        users_map(s).dom().contains(u) <==> exists|i: int|
            0 <= i < s.len() && (#[trigger] s[i]).0@ == u,
    decreases s.len(),
{
    if s.len() > 0 {
        lemma_users_map_contains(s.drop_last(), u);
        if s.last().0@ == u {
            assert(s[s.len() - 1].0@ == u);
        } else {
            if users_map(s).dom().contains(u) {
                let i = choose|i: int| 0 <= i < s.drop_last().len() && (#[trigger] s.drop_last()[i]).0@ == u;
                assert(s[i].0@ == u);
            }
            if exists|i: int| 0 <= i < s.len() && (#[trigger] s[i]).0@ == u {
                let i = choose|i: int| 0 <= i < s.len() && (#[trigger] s[i]).0@ == u;
                assert(i < s.len() - 1);
                assert(s.drop_last()[i].0@ == u);
            }
        }
    }
}

pub proof fn lemma_users_map_value(s: Seq<(String, User)>, i: int)
    requires
        user_keys_unique(s),
        0 <= i < s.len(),
    ensures
        users_map(s).dom().contains(s[i].0@),
        users_map(s)[s[i].0@] == user_view(s[i].1),
    decreases s.len(),
{
    if i < s.len() - 1 {
        assert(user_keys_unique(s.drop_last()));
        assert(s.drop_last()[i] == s[i]);
        lemma_users_map_value(s.drop_last(), i);
        assert(s[i].0@ != s.last().0@);
    }
}

pub proof fn lemma_users_map_push(s: Seq<(String, User)>, name: String, u: User)
    ensures
        users_map(s.push((name, u))) == users_map(s).insert(name@, user_view(u)),
{
    assert(s.push((name, u)).drop_last() =~= s);
    assert(s.push((name, u)).last() == (name, u));
}

pub proof fn lemma_users_map_update(s: Seq<(String, User)>, i: int, p: (String, User))
    requires
        user_keys_unique(s),
        0 <= i < s.len(),
        p.0@ == s[i].0@,
    ensures
        users_map(s.update(i, p)) =~= users_map(s).insert(p.0@, user_view(p.1)),
    decreases s.len(),
{
    if i == s.len() - 1 {
        assert(s.update(i, p).drop_last() =~= s.drop_last());
        assert(s.update(i, p).last() == p);
    } else {
        assert(user_keys_unique(s.drop_last()));
        assert(s.drop_last()[i] == s[i]);
        lemma_users_map_update(s.drop_last(), i, p);
        assert(s.update(i, p).drop_last() =~= s.drop_last().update(i, p));
        assert(s.update(i, p).last() == s.last());
        assert(s[i].0@ != s.last().0@);
        assert(users_map(s.update(i, p)) =~= users_map(s).insert(p.0@, user_view(p.1)));
    }
}

pub proof fn lemma_users_map_remove(s: Seq<(String, User)>, i: int)
    requires
        user_keys_unique(s),
        0 <= i < s.len(),
    ensures
        users_map(s.remove(i)) =~= users_map(s).remove(s[i].0@),
    decreases s.len(),
{
    if i == s.len() - 1 {
        assert(s.remove(i) =~= s.drop_last());
        lemma_users_map_contains(s.drop_last(), s[i].0@);
        assert(forall|j: int| 0 <= j < s.drop_last().len() ==> (#[trigger] s.drop_last()[j]).0@ != s[i].0@);
        assert(users_map(s.drop_last()) =~= users_map(s).remove(s[i].0@));
    } else {
        assert(user_keys_unique(s.drop_last()));
        assert(s.drop_last()[i] == s[i]);
        lemma_users_map_remove(s.drop_last(), i);
        assert(s.remove(i).drop_last() =~= s.drop_last().remove(i));
        assert(s.remove(i).last() == s.last());
        assert(s[i].0@ != s.last().0@);
        assert(users_map(s.remove(i)) =~= users_map(s).remove(s[i].0@));
    }
}

} // verus!
