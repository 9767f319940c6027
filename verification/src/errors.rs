//! The stable machine-readable reason codes of every error response.

use vstd::prelude::*;

verus! {

/// Every failure the backend reports, each with a stable dotted reason code.
#[derive(Clone, Copy, Debug, PartialEq, Eq, Structural)]
pub enum ErrorReason {
    NotFound404,
    MethodNotAllowed405,
    Error500,
    NetworkError,
    MalformedRequest,
    InvalidPath,
    RegistrationDisabled,
    UsernameExists,
    InvalidUsername,
    IncorrectLoginOrOtp,
    DeviceNameExists,
    MissingAuthToken,
    InvalidAuthToken,
    DeviceNameNotFound,
    CannotDeleteLastAuthToken,
    ParentDoesntExist,
    PathExists,
    InvalidRenameOperation,
}

/// The dotted reason code of each error, as it appears in responses.
pub open spec fn reason_code(e: ErrorReason) -> Seq<char> {
    match e {
        ErrorReason::NotFound404 => "error.generic.404_not_found"@,
        ErrorReason::MethodNotAllowed405 => "error.generic.405_method_not_allowed"@,
        ErrorReason::Error500 => "error.generic.500_internal_server_error"@,
        ErrorReason::NetworkError => "error.generic.network_error"@,
        ErrorReason::MalformedRequest => "error.generic.malformed_request"@,
        ErrorReason::InvalidPath => "error.generic.invalid_path"@,
        ErrorReason::RegistrationDisabled => "error.registration.registration_disabled"@,
        ErrorReason::UsernameExists => "error.registration.username_exists"@,
        ErrorReason::InvalidUsername => "error.registration.invalid_username"@,
        ErrorReason::IncorrectLoginOrOtp => "error.login.incorrect_login_or_otp"@,
        ErrorReason::DeviceNameExists => "error.login.device_name_exists"@,
        ErrorReason::MissingAuthToken => "error.auth.missing_auth_token"@,
        ErrorReason::InvalidAuthToken => "error.auth.invalid_auth_token"@,
        ErrorReason::DeviceNameNotFound => "error.delete_token.device_name_not_found"@,
        ErrorReason::CannotDeleteLastAuthToken => "error.delete_token.cannot_delete_last_auth_token"@,
        ErrorReason::ParentDoesntExist => "error.upload.parent_doesnt_exist"@,
        ErrorReason::PathExists => "error.upload.path_exists"@,
        ErrorReason::InvalidRenameOperation => "error.rename.invalid_rename_operation"@,
    }
}

impl ErrorReason {
    /// The dotted reason code of this error.
    pub fn s(self) -> (r: &'static str)
        ensures
            r@ == reason_code(self),
    {
        match self {
            Self::NotFound404 => "error.generic.404_not_found",
            Self::MethodNotAllowed405 => "error.generic.405_method_not_allowed",
            Self::Error500 => "error.generic.500_internal_server_error",
            Self::NetworkError => "error.generic.network_error",
            Self::MalformedRequest => "error.generic.malformed_request",
            Self::InvalidPath => "error.generic.invalid_path",
            Self::RegistrationDisabled => "error.registration.registration_disabled",
            Self::UsernameExists => "error.registration.username_exists",
            Self::InvalidUsername => "error.registration.invalid_username",
            Self::IncorrectLoginOrOtp => "error.login.incorrect_login_or_otp",
            Self::DeviceNameExists => "error.login.device_name_exists",
            Self::MissingAuthToken => "error.auth.missing_auth_token",
            Self::InvalidAuthToken => "error.auth.invalid_auth_token",
            Self::DeviceNameNotFound => "error.delete_token.device_name_not_found",
            Self::CannotDeleteLastAuthToken => "error.delete_token.cannot_delete_last_auth_token",
            Self::ParentDoesntExist => "error.upload.parent_doesnt_exist",
            Self::PathExists => "error.upload.path_exists",
            Self::InvalidRenameOperation => "error.rename.invalid_rename_operation",
        }
    }
}

} // verus!
