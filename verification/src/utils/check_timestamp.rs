//! Freshness of a request in the pairwise service: a timestamp must be
//! younger than ten minutes.

use std::time::Duration;
use vstd::prelude::*;
use crate::mpc::utils::check_timestamp::{
    duration_seconds, duration_subsec_nanos, since_unix_epoch, subsec_nanos, system_now,
    whole_seconds,
};

verus! {

/// The age, in seconds, at which a request is no longer accepted.
pub const TEN_MINUTES_SECS: u64 = 600;

/// Whether the whole second `timestamp` is less than ten minutes older than
/// the present, given in seconds and nanoseconds.
pub open spec fn younger_than_ten_minutes(timestamp: u64, now_secs: u64, now_nanos: u32) -> bool {
    timestamp * 1_000_000_000 > now_secs * 1_000_000_000 + now_nanos - TEN_MINUTES_SECS
        * 1_000_000_000
}

/// Decides whether `timestamp` is less than ten minutes older than the
/// present.
pub fn is_younger_than_ten_minutes(timestamp: u64, now_secs: u64, now_nanos: u32) -> (fresh: bool)
    ensures
        fresh == younger_than_ten_minutes(timestamp, now_secs, now_nanos),
{
    let t: u128 = timestamp as u128 * 1_000_000_000;
    let now: u128 = now_secs as u128 * 1_000_000_000 + now_nanos as u128;
    let limit: u128 = TEN_MINUTES_SECS as u128 * 1_000_000_000;
    t + limit > now
}

/// The verdict on `timestamp` for a given reading of the clock: a clock
/// that cannot be read against the epoch accepts nothing.
pub open spec fn fresh_at(timestamp: u64, now: Option<Duration>) -> bool {
    match now {
        Some(now) => younger_than_ten_minutes(
            timestamp,
            duration_seconds(now),
            duration_subsec_nanos(now),
        ),
        None => false,
    }
}

/// Reads the clock and decides whether `timestamp`, in seconds since the
/// Unix epoch, is less than ten minutes old.
pub fn verify_timestamp_10_minute_window(timestamp: u64) -> (ok: bool)
    ensures
        exists|now: Option<Duration>| ok == fresh_at(timestamp, now),
{
    let start = system_now();
    let since_the_epoch = since_unix_epoch(&start);
    let ok = match &since_the_epoch {
        Some(now) => {
            let nanos = subsec_nanos(now);
            is_younger_than_ten_minutes(timestamp, whole_seconds(now), nanos)
        },
        None => false,
    };
    assert(ok == fresh_at(timestamp, since_the_epoch));
    ok
}

} // verus!
