//! Expiry arithmetic over epoch timestamps, and the one clock source.
//!
//! Every token carries an absolute expiry instant in whole seconds since the
//! Unix epoch.  A token counts as expired once fewer than a safety margin of
//! seconds remain: five minutes when an application token is read back for
//! immediate use, one minute for user tokens and for deciding which entries
//! are still worth persisting in the cache.

use vstd::prelude::*;

verus! {

/// Safety margin, in seconds, applied when an application token is read back
/// for immediate use: a token within five minutes of its expiry is
/// re-acquired rather than handed out.
pub const APP_READ_MARGIN_SECONDS: i64 = 300;

/// Safety margin, in seconds, applied to user tokens and to cache
/// persistence: entries within one minute of expiry are dropped on save, and
/// a user token within one minute of expiry is no longer usable.
pub const CACHE_MARGIN_SECONDS: i64 = 60;

/// Seconds subtracted from a server-reported relative lifetime when turning
/// it into an absolute expiry instant, to account for time already spent on
/// the exchange itself.
pub const EXPIRY_SLACK_SECONDS: i64 = 5;

/// An absolute expiry instant counts as expired at time `now` when fewer
/// than `margin` seconds remain until it.
pub open spec fn spec_expired(expires_on: int, now: int, margin: int) -> bool {
    expires_on - now < margin
}

/// Margin-based expiry test on epoch seconds, exact even when the
/// mathematical difference does not fit in a machine integer.
pub fn expired_at(expires_on: i64, now: i64, margin: i64) -> (r: bool)
    requires
        margin >= 0,
    ensures
        r == spec_expired(expires_on as int, now as int, margin as int),
{
    match expires_on.checked_sub(now) {
        Some(diff) => diff < margin,
        // The true difference exceeds the i64 range on one side or the
        // other; its sign alone decides the comparison.
        None => expires_on < now,
    }
}

/// `now + expires_in - EXPIRY_SLACK_SECONDS`, clamped into the i64 range.
pub open spec fn spec_clamped_expiry(now: int, expires_in: int) -> int {
    let v = now + expires_in - EXPIRY_SLACK_SECONDS;
    if v > i64::MAX {
        i64::MAX as int
    } else if v < i64::MIN {
        i64::MIN as int
    } else {
        v
    }
}

/// Turns a server-reported relative lifetime into an absolute expiry
/// instant: `now + expires_in` minus a small slack for the seconds already
/// spent on the exchange.
pub fn absolute_expiry(now: i64, expires_in: i64) -> (r: i64)
    ensures
        r as int == spec_clamped_expiry(now as int, expires_in as int),
{
    let wide: i128 = now as i128 + expires_in as i128 - EXPIRY_SLACK_SECONDS as i128;
    if wide > i64::MAX as i128 {
        i64::MAX
    } else if wide < i64::MIN as i128 {
        i64::MIN
    } else {
        wide as i64
    }
}

/// Relies on chrono's `Utc::now`: `timestamp` on the returned instant is the
/// current time in whole seconds since the Unix epoch.  Nothing is assumed
/// about the value.
#[verifier::external_body]
fn chrono_now_epoch_seconds() -> i64 {
    chrono::Utc::now().timestamp()
}

/// The current time in whole seconds since the Unix epoch.  The value is
/// whatever the system clock reports; callers pass it on to the expiry
/// predicates, which are specified for every possible reading.
pub fn now_epoch_seconds() -> i64 {
    chrono_now_epoch_seconds()
}

} // verus!
