//! Deployment constants.

use vstd::prelude::*;

verus! {

/// Seconds between two runs of the expiry sweeper.
pub const WORKER_INTERVAL_SECS: u64 = 60 * 5;

/// Grace period, in seconds, during which a session-less account is kept
/// before the sweeper may remove it.
pub const ACCOUNT_WITHOUT_TOKEN_EXPIRATION_SECS: u64 = 60 * 10;

/// Largest accepted upload body, in bytes.
pub const UPLOAD_LIMIT_BYTES: u64 = 1024 * 1024 * 1024 * 10;

} // verus!
