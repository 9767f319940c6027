//! TOTP enrollment and verification, through the `totp_rs` crate.
//!
//! Accounts enroll with SHA-1, 6 digits, a 30-second step and a tolerance of
//! one adjacent step. The generator state itself is opaque to the registry:
//! it is created here, carried inside each account, checked against submitted
//! codes at login, and rendered as a provisioning URI at registration.

use vstd::prelude::*;

verus! {

/// Declares totp_rs::TOTP so that accounts can carry their generator state.
/// The value is opaque: nothing about its inside is assumed.
#[verifier::external_type_specification]
#[verifier::external_body]
pub struct ExTotp(totp_rs::TOTP);

/// Relies on totp_rs::Secret::generate_secret, which draws 160 random bits
/// from the process RNG, and on Secret::to_bytes, which hands a raw secret
/// back unchanged: the result is twenty bytes. Their values are random, so
/// nothing is promised of them.
#[verifier::external_body]
pub(crate) fn generate_totp_secret() -> (r: Vec<u8>)
    ensures
        r@.len() == 20,
{
    totp_rs::Secret::generate_secret().to_bytes().unwrap()
}

/// Relies on totp_rs::TOTP::new, called with SHA-1, 6 digits, skew 1, a
/// 30-second step and the issuer label "Archiv": with those fixed parameters
/// its validation succeeds exactly when the secret is at least 128 bits
/// (16 bytes) and the account label contains no colon.
#[verifier::external_body]
pub(crate) fn new_totp(secret: Vec<u8>, account_name: String) -> (r: Option<totp_rs::TOTP>)
    ensures
        r is Some <==> (secret@.len() >= 16 && !account_name@.contains(':')),
{
    totp_rs::TOTP::new(
        totp_rs::Algorithm::SHA1,
        6,
        1,
        30,
        secret,
        Some("Archiv".to_owned()),
        account_name,
    )
    .ok()
}

/// Relies on totp_rs::TOTP::check_current: whether the submitted code matches
/// the current or an adjacent time window. The result depends on the system
/// clock, so nothing is promised of it; a clock before the epoch counts as a
/// failed check.
#[verifier::external_body]
pub(crate) fn totp_check_current(totp: &totp_rs::TOTP, code: &str) -> bool {
    totp.check_current(code).unwrap_or(false)
}

/// Relies on totp_rs::TOTP::get_url: a provisioning URI of the form
/// `otpauth://totp/<label>?<parameters>`.
#[verifier::external_body]
pub(crate) fn totp_url(totp: &totp_rs::TOTP) -> (r: String)
    ensures
        r@.len() >= 15,
        r@.subrange(0, 15) == "otpauth://totp/"@,
{
    totp.get_url()
}

} // verus!
