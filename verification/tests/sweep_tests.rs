use archiiv::auth::{login, register};
use archiiv::consts::ACCOUNT_WITHOUT_TOKEN_EXPIRATION_SECS;
use archiiv::dirs::{missing_user_dirs, orphan_dirs};
use archiiv::registry::Registry;
use archiiv::sweep::sweep;

/// Registers `name`; when `device` is given, also logs it in with a valid
/// code so the account holds one session.
fn add_account(reg: &mut Registry, name: &str, device: Option<&str>) {
    let url = register(reg, true, name).unwrap();
    if let Some(d) = device {
        let totp = totp_rs::TOTP::from_url(&url).unwrap();
        let code = totp.generate_current().unwrap();
        login(reg, name, &code, d.to_owned()).unwrap();
    }
}

fn names(reg: &Registry) -> Vec<String> {
    let mut v: Vec<String> = reg.users.iter().map(|(n, _)| n.clone()).collect();
    v.sort();
    v
}

#[test]
fn sweep_removes_only_stale_sessionless_accounts() {
    let mut reg = Registry::new();
    add_account(&mut reg, "fresh", None);
    add_account(&mut reg, "stale", None);
    add_account(&mut reg, "active", Some("phone"));
    let registered = reg.users[0].1.registered_on;
    // Age the stale account past the grace period; give the active account
    // the same age, its session protects it.
    let grace = ACCOUNT_WITHOUT_TOKEN_EXPIRATION_SECS as i64;
    reg.users[1].1.registered_on = registered - grace - 1;
    reg.users[2].1.registered_on = registered - grace - 1;
    sweep(&mut reg, registered);
    assert_eq!(names(&reg), ["active", "fresh"]);
}

#[test]
fn sweep_keeps_an_account_exactly_inside_the_grace_period() {
    let mut reg = Registry::new();
    add_account(&mut reg, "edge", None);
    let registered = reg.users[0].1.registered_on;
    let grace = ACCOUNT_WITHOUT_TOKEN_EXPIRATION_SECS as i64;
    // One second inside the window survives; exactly on it does not.
    sweep(&mut reg, registered + grace - 1);
    assert_eq!(names(&reg), ["edge"]);
    sweep(&mut reg, registered + grace);
    assert!(names(&reg).is_empty());
}

#[test]
fn two_consecutive_sweeps_agree() {
    let mut reg = Registry::new();
    add_account(&mut reg, "gone1", None);
    add_account(&mut reg, "gone2", None);
    add_account(&mut reg, "kept", Some("phone"));
    let now = reg.users[0].1.registered_on + ACCOUNT_WITHOUT_TOKEN_EXPIRATION_SECS as i64 + 5;
    sweep(&mut reg, now);
    let after_first = names(&reg);
    assert_eq!(after_first, ["kept"]);
    // The second pass at the same instant removes nothing.
    sweep(&mut reg, now);
    assert_eq!(names(&reg), after_first);
}

#[test]
fn startup_reconciliation_lists_missing_and_orphan_dirs() {
    let mut reg = Registry::new();
    add_account(&mut reg, "alice", Some("phone"));
    add_account(&mut reg, "bob", Some("phone"));
    add_account(&mut reg, "carol", None);
    let existing = vec!["bob".to_owned(), "stranger".to_owned()];
    // alice has a session and no directory; carol has no session, so no
    // directory is owed to it.
    let mut missing = missing_user_dirs(&reg, &existing);
    missing.sort();
    assert_eq!(missing, ["alice"]);
    // "stranger" belongs to no account.
    let mut orphans = orphan_dirs(&reg, &existing);
    orphans.sort();
    assert_eq!(orphans, ["stranger"]);
}
