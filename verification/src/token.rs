//! Opaque session tokens: 32 random alphanumeric characters.

use rand::distributions::DistString;
use vstd::prelude::*;

use crate::username::is_alnum_char;

verus! {

/// Length of every session token.
pub const TOKEN_LENGTH: usize = 32;

/// Relies on rand's Alphanumeric distribution through
/// DistString::sample_string: exactly the requested number of characters,
/// each drawn from `[0-9A-Za-z]`. The characters are random, so nothing more
/// is promised.
#[verifier::external_body]
pub(crate) fn random_token() -> (r: String)
    ensures
        r@.len() == TOKEN_LENGTH,
        forall|i: int| 0 <= i < r@.len() ==> is_alnum_char(#[trigger] r@[i]),
{
    rand::distributions::Alphanumeric.sample_string(&mut rand::thread_rng(), TOKEN_LENGTH)
}

} // verus!
