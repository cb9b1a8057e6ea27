//! The wall clock, as `chrono` shows it (whole seconds since the Unix epoch
//! and the nanoseconds within the second), and the lifetimes of codes,
//! access tokens and sessions.
use vstd::prelude::*;

verus! {

/// The last second that `chrono` can represent: 262142-12-31T23:59:59Z.
pub const MAX_CLOCK_SECS: i64 = 8_210_266_876_799;

/// A one-time code is valid for 15 minutes.
pub const OTP_TTL_SECS: i64 = 900;

/// An access token is valid for 15 minutes.
pub const ACCESS_TOKEN_TTL_SECS: u64 = 900;

/// A refresh session is valid for 30 days.
pub const SESSION_TTL_SECS: i64 = 2_592_000;

/// The refresh cookie lives as long as the session: 30 days.
pub const SESSION_COOKIE_MAX_AGE_SECS: i64 = 2_592_000;

/// An instant: whole seconds since the Unix epoch and the nanoseconds within
/// the second (`DateTime::timestamp` and `DateTime::timestamp_subsec_nanos`).
#[derive(Debug, PartialEq, Eq, Clone, Copy)]
pub struct Timestamp {
    pub secs: i64,
    pub nanos: u32,
}

/// The instant in nanoseconds since the epoch.
pub open spec fn nanos_since_epoch(t: Timestamp) -> int {
    t.secs * 1_000_000_000 + t.nanos
}

/// Whether `a` comes before `b`: the order of `chrono`'s `DateTime`, which
/// compares the seconds and then the nanoseconds.
pub open spec fn instant_before(a: Timestamp, b: Timestamp) -> bool {
    a.secs < b.secs || (a.secs == b.secs && a.nanos < b.nanos)
}

/// `t` moved `secs` seconds later (`DateTime + TimeDelta::seconds(secs)`).
pub open spec fn seconds_after(t: Timestamp, secs: int) -> Timestamp {
    Timestamp { secs: (t.secs + secs) as i64, nanos: t.nanos }
}

/// A value that the clock can show: not before the epoch, within the range
/// of `chrono`'s `DateTime<Utc>`, and with fewer than a second of nanoseconds.
pub open spec fn is_clock_reading(t: Timestamp) -> bool {
    0 <= t.secs <= MAX_CLOCK_SECS && t.nanos < 1_000_000_000
}

/// Trusted: `chrono::Utc::now()`, taken apart into `timestamp()` and
/// `timestamp_subsec_nanos()`. `Utc::now` reads the system clock, panics
/// when it shows a time before the epoch, and builds the value with
/// `DateTime::from_timestamp(secs, subsec_nanos).unwrap()` from a
/// `Duration` (whose sub-second part is below one second), so the reading lies
/// in `chrono`'s range. Which time it shows is not stated.
#[verifier::external_body]
pub(crate) fn now() -> (t: Timestamp)
    ensures
        is_clock_reading(t),
{
    let now = chrono::Utc::now();
    Timestamp { secs: now.timestamp(), nanos: now.timestamp_subsec_nanos() }
}

/// Whether `a` comes before `b`.
pub fn is_before(a: Timestamp, b: Timestamp) -> (r: bool)
    ensures
        r == instant_before(a, b),
{
    a.secs < b.secs || (a.secs == b.secs && a.nanos < b.nanos)
}

/// When a one-time code issued at `now` stops being valid.
pub fn otp_expires_at(now: Timestamp) -> (t: Timestamp)
    requires
        is_clock_reading(now),
    ensures
        t == seconds_after(now, OTP_TTL_SECS as int),
{
    Timestamp { secs: now.secs + OTP_TTL_SECS, nanos: now.nanos }
}

/// When a refresh session opened at `now` stops being valid.
pub fn session_expires_at(now: Timestamp) -> (t: Timestamp)
    requires
        is_clock_reading(now),
    ensures
        t == seconds_after(now, SESSION_TTL_SECS as int),
{
    Timestamp { secs: now.secs + SESSION_TTL_SECS, nanos: now.nanos }
}

/// The `exp` claim (whole seconds since the epoch) of an access token issued
/// at `now`: the seconds of `now` plus 15 minutes.
pub fn access_token_expiry(now: Timestamp) -> (exp: u64)
    requires
        is_clock_reading(now),
    ensures
        exp == now.secs + ACCESS_TOKEN_TTL_SECS,
{
    now.secs as u64 + ACCESS_TOKEN_TTL_SECS
}

} // verus!
