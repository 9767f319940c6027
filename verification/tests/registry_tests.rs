use archiiv::auth::{login, register};
use archiiv::errors::ErrorReason;
use archiiv::registry::Registry;
use archiiv::resolver::{parse_bearer, resolve_token};
use archiiv::session::{delete_token, whoami};

/// Registers `name` and logs it in from `device` with a freshly generated
/// valid code, returning the session token.
fn enroll(reg: &mut Registry, name: &str, device: &str) -> String {
    let url = register(reg, true, name).unwrap();
    let totp = totp_rs::TOTP::from_url(&url).unwrap();
    let code = totp.generate_current().unwrap();
    login(reg, name, &code, device.to_owned()).unwrap()
}

#[test]
fn register_rejects_bad_usernames() {
    let mut reg = Registry::new();
    assert_eq!(register(&mut reg, true, "a").unwrap_err(), ErrorReason::InvalidUsername);
    assert_eq!(register(&mut reg, true, "a b").unwrap_err(), ErrorReason::InvalidUsername);
    assert!(reg.is_empty());
}

#[test]
fn first_account_may_register_even_when_disabled() {
    let mut reg = Registry::new();
    // The bootstrap exception is load-bearing: an empty registry admits the
    // first account although registration is disabled.
    assert!(register(&mut reg, false, "alice").is_ok());
    // From then on the disabled policy holds.
    assert_eq!(register(&mut reg, false, "bob").unwrap_err(), ErrorReason::RegistrationDisabled);
}

#[test]
fn register_succeeds_exactly_once() {
    let mut reg = Registry::new();
    let url = register(&mut reg, true, "alice").unwrap();
    assert!(url.starts_with("otpauth://totp/"));
    assert_eq!(register(&mut reg, true, "alice").unwrap_err(), ErrorReason::UsernameExists);
}

#[test]
fn login_rejects_unknown_user_and_wrong_code_alike() {
    let mut reg = Registry::new();
    register(&mut reg, true, "alice").unwrap();
    let r = login(&mut reg, "nobody", "123456", "phone".to_owned());
    assert_eq!(r.unwrap_err(), ErrorReason::IncorrectLoginOrOtp);
    // A TOTP code is six digits, so this can never match.
    let r = login(&mut reg, "alice", "not-a-code", "phone".to_owned());
    assert_eq!(r.unwrap_err(), ErrorReason::IncorrectLoginOrOtp);
    // The failed attempts created no session.
    assert!(whoami(&reg, "alice").is_empty());
}

#[test]
fn login_issues_a_32_char_alphanumeric_token() {
    let mut reg = Registry::new();
    let token = enroll(&mut reg, "alice", "phone");
    assert_eq!(token.len(), 32);
    assert!(token.chars().all(|c| c.is_ascii_alphanumeric()));
}

#[test]
fn login_refuses_a_taken_device_name() {
    let mut reg = Registry::new();
    enroll(&mut reg, "alice", "phone");
    let url = register(&mut reg, true, "bob").unwrap();
    // Same device name on another account is fine.
    let totp = totp_rs::TOTP::from_url(&url).unwrap();
    let code = totp.generate_current().unwrap();
    assert!(login(&mut reg, "bob", &code, "phone".to_owned()).is_ok());
    // On the same account it is refused.
    let code = totp.generate_current().unwrap();
    let r = login(&mut reg, "bob", &code, "phone".to_owned());
    assert_eq!(r.unwrap_err(), ErrorReason::DeviceNameExists);
}

#[test]
fn fresh_token_resolves_to_its_account() {
    let mut reg = Registry::new();
    let token = enroll(&mut reg, "alice", "phone");
    enroll(&mut reg, "bob", "phone");
    assert_eq!(resolve_token(&reg, &token).unwrap(), "alice");
    assert!(resolve_token(&reg, "00000000000000000000000000000000").is_none());
}

#[test]
fn two_device_logins_both_stick() {
    let mut reg = Registry::new();
    let t1 = enroll(&mut reg, "alice", "phone");
    let url = register(&mut reg, true, "carol").unwrap();
    let totp = totp_rs::TOTP::from_url(&url).unwrap();
    let c = totp.generate_current().unwrap();
    let ta = login(&mut reg, "carol", &c, "phone".to_owned()).unwrap();
    let c = totp.generate_current().unwrap();
    let tb = login(&mut reg, "carol", &c, "laptop".to_owned()).unwrap();
    let sessions = whoami(&reg, "carol");
    let mut devices: Vec<&str> = sessions.iter().map(|t| t.device.as_str()).collect();
    devices.sort();
    assert_eq!(devices, ["laptop", "phone"]);
    assert_eq!(resolve_token(&reg, &ta).unwrap(), "carol");
    assert_eq!(resolve_token(&reg, &tb).unwrap(), "carol");
    assert_eq!(resolve_token(&reg, &t1).unwrap(), "alice");
}

#[test]
fn delete_token_refuses_unknown_names() {
    let mut reg = Registry::new();
    enroll(&mut reg, "alice", "phone");
    let r = delete_token(&mut reg, "nobody", "phone");
    assert_eq!(r.unwrap_err(), ErrorReason::DeviceNameNotFound);
    let r = delete_token(&mut reg, "alice", "laptop");
    assert_eq!(r.unwrap_err(), ErrorReason::DeviceNameNotFound);
}

#[test]
fn deleting_the_last_session_is_refused() {
    let mut reg = Registry::new();
    enroll(&mut reg, "alice", "phone");
    let r = delete_token(&mut reg, "alice", "phone");
    assert_eq!(r.unwrap_err(), ErrorReason::CannotDeleteLastAuthToken);
    assert_eq!(whoami(&reg, "alice").len(), 1);
}

#[test]
fn deleting_one_of_two_sessions_succeeds() {
    let mut reg = Registry::new();
    let url = register(&mut reg, true, "alice").unwrap();
    let totp = totp_rs::TOTP::from_url(&url).unwrap();
    let c = totp.generate_current().unwrap();
    login(&mut reg, "alice", &c, "phone".to_owned()).unwrap();
    let c = totp.generate_current().unwrap();
    login(&mut reg, "alice", &c, "laptop".to_owned()).unwrap();
    assert!(delete_token(&mut reg, "alice", "phone").is_ok());
    let sessions = whoami(&reg, "alice");
    assert_eq!(sessions.len(), 1);
    assert_eq!(sessions[0].device, "laptop");
}

#[test]
fn parse_bearer_accepts_only_the_bearer_scheme() {
    assert_eq!(parse_bearer("Bearer abc").unwrap(), "abc");
    assert_eq!(parse_bearer("Bearer a b").unwrap(), "a b");
    assert!(parse_bearer("bearer abc").is_none());
    assert!(parse_bearer("Bearerabc").is_none());
    assert!(parse_bearer("Basic abc").is_none());
    assert!(parse_bearer("Bearer").is_none());
    assert!(parse_bearer("").is_none());
    assert_eq!(parse_bearer("Bearer ").unwrap(), "");
}
