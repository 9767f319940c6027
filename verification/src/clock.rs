//! The system clock, as whole seconds since the Unix epoch.

use vstd::prelude::*;

verus! {

/// Relies on chrono::Utc::now (with DateTime::timestamp): the current time
/// as whole seconds since the Unix epoch. The clock's value is outside the
/// program, so nothing is promised of it.
#[verifier::external_body]
pub(crate) fn now_timestamp() -> i64 {
    chrono::Utc::now().timestamp()
}

} // verus!
