//! The wall clock, in whole seconds since the Unix epoch.

use vstd::prelude::*;

verus! {

/// Seconds in the lifetime of a session token: 24 hours.
pub const SESSION_LIFETIME: u64 = 86_400;

/// Seconds in the lifetime of a password-reset token: one hour.
pub const RESET_LIFETIME: u64 = 3_600;

/// Calls `chrono::Utc::now` and takes the `timestamp` of what it returns.
///
/// Trusted: the result is not negative. `Utc::now` builds its value from the
/// time elapsed since the Unix epoch and panics where the system clock stands
/// before it, and `timestamp` hands those seconds back.
#[verifier::external_body]
fn utc_timestamp() -> (secs: i64)
    ensures
        secs >= 0,
{
    chrono::Utc::now().timestamp()
}

/// The current time. It never exceeds `i64::MAX`, so that a lifetime can be
/// added to it without overflow. Where the system clock stands before the
/// Unix epoch there is no such time, and the call panics.
pub fn unix_now() -> (now: u64)
    ensures
        now <= i64::MAX,
{
    let secs: i64 = utc_timestamp();
    secs as u64
}

} // verus!
