use archiiv::auth::{login, register};
use archiiv::errors::ErrorReason;
use archiiv::registry::Registry;
use archiiv::resolver::{parse_bearer, resolve_token};
use archiiv::session::{delete_token, whoami};

/// The whole enrollment story: register, log in with a valid code, reach an
/// authenticated route through the issued token, and fail to delete the sole
/// session.
#[test]
fn register_login_whoami_delete() {
    let mut reg = Registry::new();

    // Registration returns a provisioning URI for the enrollment code.
    let url = register(&mut reg, true, "alice").unwrap();
    assert!(url.starts_with("otpauth://totp/"));

    // The enrolled authenticator produces a valid code; login with it and a
    // fresh device name yields a 32-character token.
    let totp = totp_rs::TOTP::from_url(&url).unwrap();
    let code = totp.generate_current().unwrap();
    let token = login(&mut reg, "alice", &code, "phone".to_owned()).unwrap();
    assert_eq!(token.len(), 32);

    // The token arrives as an Authorization header and resolves to alice.
    let header = format!("Bearer {token}");
    let presented = parse_bearer(&header).unwrap();
    let username = resolve_token(&reg, presented).unwrap();
    assert_eq!(username, "alice");

    // whoami lists the one session under its device name.
    let sessions = whoami(&reg, &username);
    assert_eq!(sessions.len(), 1);
    assert_eq!(sessions[0].device, "phone");

    // Deleting the only session is refused and changes nothing.
    let r = delete_token(&mut reg, &username, "phone");
    assert_eq!(r.unwrap_err(), ErrorReason::CannotDeleteLastAuthToken);
    assert_eq!(whoami(&reg, &username).len(), 1);
}
