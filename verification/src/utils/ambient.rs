//! What the process takes from its surroundings: the time and fresh
//! identifiers. Nothing is known of either beyond its shape, so every
//! function that uses one is verified for whatever value comes back.

use vstd::prelude::*;

verus! {

/// `chrono::Utc::now().timestamp()`: the seconds since the Unix epoch, by
/// the system clock. Two calls may differ, so nothing is promised of the
/// value. chrono stops the process where the clock stands before the epoch.
#[verifier::external_body]
pub(crate) fn unix_time() -> (r: i64) {
    chrono::Utc::now().timestamp()
}

/// `uuid::Uuid::new_v4().to_string()`: a random identifier in hyphenated
/// form, which always has 36 characters. uuid stops the process where the
/// system gives it no random bytes.
#[verifier::external_body]
pub(crate) fn fresh_id() -> (r: String)
    ensures
        r@.len() == 36,
{
    uuid::Uuid::new_v4().to_string()
}

/// `uuid::Uuid::new_v4().simple().to_string()`: a random identifier in
/// simple form, which always has 32 characters. uuid stops the process
/// where the system gives it no random bytes.
#[verifier::external_body]
pub(crate) fn fresh_token() -> (r: String)
    ensures
        r@.len() == 32,
{
    uuid::Uuid::new_v4().simple().to_string()
}

} // verus!
