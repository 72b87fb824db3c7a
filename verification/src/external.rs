//! Trusted boundary to the outside world: identity generation and the
//! clock.  Everything else in the crate is verified against the contracts
//! stated here.

use vstd::prelude::*;

verus! {

/// Relies on `uuid::Uuid::new_v4` and `Uuid::as_u128`: draws a random
/// 128-bit version-4 identifier.  The generator always sets the version
/// and variant bits, so the value is never zero; being random, nothing
/// more is promised of it, and two draws may or may not collide.
#[verifier::external_body]
pub(crate) fn fresh_id() -> (r: u128)
    ensures
        r != 0,
{
    uuid::Uuid::new_v4().as_u128()
}

/// Relies on `chrono::Utc::now` and `DateTime::timestamp_millis`: the
/// current wall-clock time as milliseconds since the Unix epoch.  The
/// clock is environmental, so nothing is promised of the reading; callers
/// state what holds whatever value comes back.
#[verifier::external_body]
pub(crate) fn now_millis() -> i64 {
    chrono::Utc::now().timestamp_millis()
}

} // verus!
