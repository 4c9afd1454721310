//! Reading the clock: times as whole nanoseconds or seconds, so that the
//! decisions taken on them (is a deadline due, which run started last) are
//! verified over plain integers, and RFC 3339 timestamps for logs and
//! telemetry.

use vstd::prelude::*;

use std::time::{Duration, Instant, SystemTime, UNIX_EPOCH};

verus! {

/// The first second (since 1970) of the year 10000: RFC 3339 timestamps
/// only reach up to the year 9999.
pub const RFC3339_LIMIT_SECS: u64 = 253_402_300_800;

/// `humantime::format_rfc3339_seconds` of the time `secs` seconds after
/// 1970 (`2018-02-14T00:28:07Z`).
pub uninterp spec fn rfc3339_text(secs: u64) -> Seq<char>;

/// Calls `SystemTime::now`; nothing is claimed of the time.
#[verifier::external_body]
pub(crate) fn system_now() -> SystemTime {
    SystemTime::now()
}

/// Calls `SystemTime::duration_since(UNIX_EPOCH)`, in whole seconds;
/// `None` for a time before 1970. `SystemTime` is opaque to the verifier,
/// so nothing is claimed of the value.
#[verifier::external_body]
fn since_epoch_secs(t: &SystemTime) -> Option<u64> {
    t.duration_since(UNIX_EPOCH).ok().map(|d| d.as_secs())
}

/// Calls `humantime::format_rfc3339_seconds` on the time `secs` seconds
/// after 1970 and renders it with `Display`. Below the year 10000 the
/// rendering cannot fail (humantime's `Display` fails only from there, and
/// panics only before 1970). Claims that the text is the named
/// `rfc3339_text` of `secs`.
#[verifier::external_body]
fn rfc3339_seconds(secs: u64) -> (r: String)
    requires
        secs < RFC3339_LIMIT_SECS,
    ensures
        r@ == rfc3339_text(secs),
{
    humantime::format_rfc3339_seconds(UNIX_EPOCH + Duration::from_secs(secs)).to_string()
}

/// Calls `Instant::elapsed`, in whole nanoseconds. The value depends on the
/// clock, so nothing is claimed of it.
#[verifier::external_body]
pub(crate) fn instant_elapsed_nanos(t: &Instant) -> u128 {
    t.elapsed().as_nanos()
}

/// Calls `SystemTime::elapsed`, in whole nanoseconds; `None` when the clock
/// has gone back past `t`. The value depends on the clock, so nothing is
/// claimed of it.
#[verifier::external_body]
pub(crate) fn system_elapsed_nanos(t: &SystemTime) -> Option<u128> {
    t.elapsed().ok().map(|d| d.as_nanos())
}

/// Calls `SystemTime::duration_since(UNIX_EPOCH)`, in whole nanoseconds;
/// `None` for a time before 1970. `SystemTime` is opaque to the verifier,
/// so nothing is claimed of the value.
#[verifier::external_body]
pub(crate) fn since_epoch_nanos(t: &SystemTime) -> Option<u128> {
    t.duration_since(UNIX_EPOCH).ok().map(|d| d.as_nanos())
}

/// Calls `Duration::as_nanos`. `Duration` is opaque to the verifier, so
/// nothing is claimed of the value.
#[verifier::external_body]
pub(crate) fn duration_nanos(d: &Duration) -> u128 {
    d.as_nanos()
}

/// Whether a file last changed `age_ns` nanoseconds ago (none when its
/// change time lies in the future) is older than `max_age_ns`, so that a
/// cleanup removes it.
pub fn is_stale(age_ns: Option<u128>, max_age_ns: u128) -> (r: bool)
    ensures
        r == match age_ns {
            Some(a) => a > max_age_ns,
            None => false,
        },
{
    match age_ns {
        Some(a) => a > max_age_ns,
        None => false,
    }
}

/// The second a timestamp shows for a clock reading: the reading itself,
/// the start of 1970 for a clock before 1970, and the last second of the
/// year 9999 beyond it.
pub open spec fn shown_second(secs: Option<u64>) -> u64 {
    match secs {
        Some(s) => if s < RFC3339_LIMIT_SECS {
            s
        } else {
            (RFC3339_LIMIT_SECS - 1) as u64
        },
        None => 0,
    }
}

/// The RFC 3339 timestamp of a clock reading in seconds since 1970 (see
/// `shown_second`).
pub fn rfc3339_for(secs: Option<u64>) -> (r: String)
    ensures
        r@ == rfc3339_text(shown_second(secs)),
{
    let s: u64 = match secs {
        Some(s) => if s < RFC3339_LIMIT_SECS {
            s
        } else {
            RFC3339_LIMIT_SECS - 1
        },
        None => 0,
    };
    rfc3339_seconds(s)
}

/// The RFC 3339 timestamp of now (see `rfc3339_for`). The time depends on
/// the clock, so only the form of the text is stated.
pub fn rfc3339_now() -> (r: String)
    ensures
        exists|secs: Option<u64>| r@ == rfc3339_text(shown_second(secs)),
{
    let now = system_now();
    rfc3339_for(since_epoch_secs(&now))
}

} // verus!
