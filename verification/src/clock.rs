//! Time, in whole seconds since the epoch, and the lifetimes of the secrets.

use vstd::prelude::*;

verus! {

/// A verification token, a reset token and a session all live one day.
pub const ONE_DAY: i64 = 86_400;

/// A login code lives three minutes.
pub const LOGIN_CODE_LIFETIME: i64 = 180;

/// The handle of a login challenge lives ten minutes.
pub const TEMP_TOKEN_LIFETIME: i64 = 600;

/// The latest moment that the clock can read: `i32::MAX` days after the
/// epoch.
pub const LATEST_READING: i64 = 185_542_587_100_800;

/// A moment that the clock can read: not before the epoch, and no more
/// than `i32::MAX` days after it.
pub open spec fn is_reading(now: int) -> bool {
    0 <= now <= LATEST_READING
}

/// Reads the system clock through `chrono::Utc::now` and gives its
/// `timestamp`. Which moment it reads is not known, and two readings may
/// differ in either direction. What is known is its range: `now` does not
/// return for a clock that stands before the epoch, and it holds the day
/// in an `i32`, so no reading lies more than `i32::MAX` days after the
/// epoch.
#[verifier::external_body]
pub(crate) fn unix_now() -> (now: i64)
    ensures
        is_reading(now as int),
{
    chrono::Utc::now().timestamp()
}

/// The moment `lifetime` seconds after `now`, where it can be written down.
pub open spec fn deadline(now: int, lifetime: int) -> Option<int> {
    if i64::MIN <= now + lifetime <= i64::MAX {
        Some(now + lifetime)
    } else {
        None
    }
}

/// A secret is dead once the clock has passed its expiry; at the expiry
/// itself it still holds.
pub open spec fn expired(now: int, expiry: int) -> bool {
    now > expiry
}

/// The expiry of a secret issued at `now` that lives `lifetime` seconds, or
/// `None` where that moment is out of range.
pub fn expiry_after(now: i64, lifetime: i64) -> (expiry: Option<i64>)
    ensures
        time_view(expiry) == deadline(now as int, lifetime as int),
{
    now.checked_add(lifetime)
}

/// Whether a secret with this expiry is dead at `now`.
pub fn is_expired(now: i64, expiry: i64) -> (r: bool)
    ensures
        r == expired(now as int, expiry as int),
{
    now > expiry
}

/// An optional time as a mathematical integer.
pub open spec fn time_view(o: Option<i64>) -> Option<int> {
    match o {
        Some(t) => Some(t as int),
        None => None,
    }
}

} // verus!
