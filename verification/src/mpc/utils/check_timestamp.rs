//! Freshness of a request: its timestamp must lie within a window around
//! the present.

use std::time::{Duration, SystemTime, UNIX_EPOCH};
use vstd::prelude::*;

verus! {

/// A reading of the system clock, `SystemTime` of the standard library.
#[verifier::external_type_specification]
#[verifier::external_body]
pub struct ExSystemTime(SystemTime);

/// The whole seconds of a duration, as `Duration::as_secs` returns them.
pub uninterp spec fn duration_seconds(d: Duration) -> u64;

/// The part of a duration below one second, in nanoseconds, as
/// `Duration::subsec_nanos` returns it.
pub uninterp spec fn duration_subsec_nanos(d: Duration) -> u32;

/// The length of a duration in nanoseconds.
pub open spec fn duration_nanos(d: Duration) -> int {
    duration_seconds(d) * 1_000_000_000 + duration_subsec_nanos(d)
}

/// Calls `Duration::as_secs`.
#[verifier::external_body]
pub(crate) fn whole_seconds(d: &Duration) -> (secs: u64)
    ensures
        secs == duration_seconds(*d),
{
    d.as_secs()
}

/// Calls `Duration::subsec_nanos`, whose result is documented to be the
/// fractional part of the duration and so below one billion.
#[verifier::external_body]
pub(crate) fn subsec_nanos(d: &Duration) -> (nanos: u32)
    ensures
        nanos == duration_subsec_nanos(*d),
        nanos < 1_000_000_000,
{
    d.subsec_nanos()
}

/// Calls `SystemTime::now`. The clock decides the result.
#[verifier::external_body]
pub(crate) fn system_now() -> (now: SystemTime) {
    SystemTime::now()
}

/// Calls `SystemTime::duration_since` with the Unix epoch as the earlier
/// instant; `None` when the instant lies before the epoch.
#[verifier::external_body]
pub(crate) fn since_unix_epoch(instant: &SystemTime) -> (elapsed: Option<Duration>) {
    instant.duration_since(UNIX_EPOCH).ok()
}

/// Whether the whole second `timestamp` lies no more than the window before
/// or after the present, all three counted from the same origin and the
/// present and the window given in seconds and nanoseconds.
pub open spec fn within_window(
    timestamp: u64,
    now_secs: u64,
    now_nanos: u32,
    window_secs: u64,
    window_nanos: u32,
) -> bool {
    let t = timestamp * 1_000_000_000;
    let now = now_secs * 1_000_000_000 + now_nanos;
    let window = window_secs * 1_000_000_000 + window_nanos;
    now - window <= t <= now + window
}

/// Decides whether `timestamp` lies within the window around the present.
pub fn window_contains(
    timestamp: u64,
    now_secs: u64,
    now_nanos: u32,
    window_secs: u64,
    window_nanos: u32,
) -> (inside: bool)
    ensures
        inside == within_window(timestamp, now_secs, now_nanos, window_secs, window_nanos),
{
    let t: u128 = timestamp as u128 * 1_000_000_000;
    let now: u128 = now_secs as u128 * 1_000_000_000 + now_nanos as u128;
    let window: u128 = window_secs as u128 * 1_000_000_000 + window_nanos as u128;
    now <= t + window && t <= now + window
}

/// The verdict on `timestamp` for a given reading of the clock: a clock
/// that cannot be read against the epoch accepts nothing.
pub open spec fn accepted_at(timestamp: u64, now: Option<Duration>, window: Duration) -> bool {
    match now {
        Some(now) => within_window(
            timestamp,
            duration_seconds(now),
            duration_subsec_nanos(now),
            duration_seconds(window),
            duration_subsec_nanos(window),
        ),
        None => false,
    }
}

/// Decides on `timestamp` for the clock reading `now`.
pub fn timestamp_accepted_at(
    timestamp: u64,
    now: &Option<Duration>,
    window: &Duration,
) -> (ok: bool)
    ensures
        ok == accepted_at(timestamp, *now, *window),
{
    match now {
        Some(now) => {
            let now_nanos = subsec_nanos(now);
            let window_nanos = subsec_nanos(window);
            window_contains(
                timestamp,
                whole_seconds(now),
                now_nanos,
                whole_seconds(window),
                window_nanos,
            )
        },
        None => false,
    }
}

/// Reads the clock and decides whether `timestamp`, in seconds since the
/// Unix epoch, lies within `window` of the present.
pub fn verify_timestamp_10_minute_window(timestamp: u64, window: Duration) -> (ok: bool)
    ensures
        exists|now: Option<Duration>| ok == accepted_at(timestamp, now, window),
{
    let start = system_now();
    let since_the_epoch = since_unix_epoch(&start);
    let ok = timestamp_accepted_at(timestamp, &since_the_epoch, &window);
    assert(ok == accepted_at(timestamp, since_the_epoch, window));
    ok
}

/// A request stamped with the present second is accepted by every window
/// of a second or more, and a request stamped a full second or more
/// outside the window, on either side, is accepted by none.
pub proof fn law_window_around_now(
    timestamp: u64,
    now_secs: u64,
    now_nanos: u32,
    window_secs: u64,
    window_nanos: u32,
)
    requires
        now_nanos < 1_000_000_000,
        window_nanos < 1_000_000_000,
    ensures
        window_secs >= 1 ==> within_window(
            now_secs,
            now_secs,
            now_nanos,
            window_secs,
            window_nanos,
        ),
        timestamp + window_secs + 1 <= now_secs ==> !within_window(
            timestamp,
            now_secs,
            now_nanos,
            window_secs,
            window_nanos,
        ),
        timestamp >= now_secs + window_secs + 2 ==> !within_window(
            timestamp,
            now_secs,
            now_nanos,
            window_secs,
            window_nanos,
        ),
{
}

} // verus!
