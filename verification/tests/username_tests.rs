use archiiv::config::Config;
use archiiv::errors::ErrorReason;
use archiiv::username::{is_valid_username, Username};

#[test]
fn accepts_ordinary_usernames() {
    assert!(is_valid_username("ab"));
    assert!(is_valid_username("user123"));
    assert!(is_valid_username("ABC9z"));
}

#[test]
fn rejects_short_and_long_usernames() {
    assert!(!is_valid_username(""));
    assert!(!is_valid_username("a"));
    assert!(is_valid_username(&"a".repeat(64)));
    assert!(!is_valid_username(&"a".repeat(65)));
}

#[test]
fn rejects_non_alphanumeric_usernames() {
    assert!(!is_valid_username("a b"));
    assert!(!is_valid_username("ab!"));
    assert!(!is_valid_username("a_b"));
    assert!(!is_valid_username("a:b"));
    assert!(!is_valid_username("n\u{00e4}me"));
}

#[test]
fn username_wrapper_keeps_the_name() {
    let u = Username("alice".to_owned());
    let v = u.clone();
    assert_eq!(v.0, "alice");
}

#[test]
fn default_config_is_closed_on_port_4000() {
    let c = Config::default();
    assert_eq!(c.port, 4000);
    assert!(!c.enable_registration);
}

#[test]
fn reason_codes_are_stable() {
    assert_eq!(ErrorReason::NotFound404.s(), "error.generic.404_not_found");
    assert_eq!(ErrorReason::MethodNotAllowed405.s(), "error.generic.405_method_not_allowed");
    assert_eq!(ErrorReason::Error500.s(), "error.generic.500_internal_server_error");
    assert_eq!(ErrorReason::NetworkError.s(), "error.generic.network_error");
    assert_eq!(ErrorReason::MalformedRequest.s(), "error.generic.malformed_request");
    assert_eq!(ErrorReason::InvalidPath.s(), "error.generic.invalid_path");
    assert_eq!(ErrorReason::RegistrationDisabled.s(), "error.registration.registration_disabled");
    assert_eq!(ErrorReason::UsernameExists.s(), "error.registration.username_exists");
    assert_eq!(ErrorReason::InvalidUsername.s(), "error.registration.invalid_username");
    assert_eq!(ErrorReason::IncorrectLoginOrOtp.s(), "error.login.incorrect_login_or_otp");
    assert_eq!(ErrorReason::DeviceNameExists.s(), "error.login.device_name_exists");
    assert_eq!(ErrorReason::MissingAuthToken.s(), "error.auth.missing_auth_token");
    assert_eq!(ErrorReason::InvalidAuthToken.s(), "error.auth.invalid_auth_token");
    assert_eq!(ErrorReason::DeviceNameNotFound.s(), "error.delete_token.device_name_not_found");
    assert_eq!(
        ErrorReason::CannotDeleteLastAuthToken.s(),
        "error.delete_token.cannot_delete_last_auth_token"
    );
    assert_eq!(ErrorReason::ParentDoesntExist.s(), "error.upload.parent_doesnt_exist");
    assert_eq!(ErrorReason::PathExists.s(), "error.upload.path_exists");
    assert_eq!(ErrorReason::InvalidRenameOperation.s(), "error.rename.invalid_rename_operation");
}
