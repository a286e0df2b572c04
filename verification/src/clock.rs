//! Reading the system clock as seconds since the Unix epoch.

use std::time::{Duration, SystemTime, SystemTimeError};
use vstd::prelude::*;

verus! {

/// The system clock's time type.
#[verifier::external_type_specification]
#[verifier::external_body]
pub struct ExSystemTime(SystemTime);

/// The error of a clock reading that lies before the reference time.
#[verifier::external_type_specification]
#[verifier::external_body]
pub struct ExSystemTimeError(SystemTimeError);

/// Calls `SystemTime::now`. Nothing is stated of the result: it is the machine's clock.
#[verifier::external_body]
fn system_time_now() -> SystemTime {
    SystemTime::now()
}

/// Calls `SystemTime::duration_since` with the Unix epoch. Nothing is stated of
/// the result: it depends on a clock reading.
#[verifier::external_body]
fn since_unix_epoch(t: &SystemTime) -> Result<Duration, SystemTimeError> {
    t.duration_since(SystemTime::UNIX_EPOCH)
}

/// What `Duration::as_secs` returns for a duration: its whole seconds.
pub uninterp spec fn duration_secs(d: Duration) -> u64;

/// Calls `Duration::as_secs`; its result is named `duration_secs` of the duration.
#[verifier::external_body]
fn whole_seconds(d: &Duration) -> (s: u64)
    ensures
        s == duration_secs(*d),
{
    d.as_secs()
}

/// `Duration` is `Copy`; its `clone` returns the same duration.
pub assume_specification[ <Duration as Clone>::clone ](d: &Duration) -> (r: Duration)
    ensures
        r == *d,
;

/// What `Duration::from_secs` returns for a number of seconds.
pub uninterp spec fn duration_of_secs(secs: u64) -> Duration;

/// Calls `Duration::from_secs`; its result is named `duration_of_secs` of the argument.
#[verifier::external_body]
pub(crate) fn duration_from_secs(secs: u64) -> (d: Duration)
    ensures
        d == duration_of_secs(secs),
{
    Duration::from_secs(secs)
}

/// The timestamp for a clock reading's distance from the Unix epoch: its
/// whole seconds, or 0 where the reading lies before the epoch.
pub open spec fn reading_seconds(since: Result<Duration, SystemTimeError>) -> u64 {
    match since {
        Ok(d) => duration_secs(d),
        Err(_) => 0,
    }
}

/// The timestamp for a clock reading's distance from the Unix epoch: its
/// whole seconds, or 0 where the reading lies before the epoch.
pub fn timestamp_from(since: Result<Duration, SystemTimeError>) -> (t: u64)
    ensures
        t == reading_seconds(since),
        since is Err ==> t == 0,
{
    match since {
        Ok(d) => whole_seconds(&d),
        Err(_) => 0,
    }
}

/// Seconds since the Unix epoch by the system clock; 0 where the clock reads
/// a time before the epoch. The reading itself is the machine's.
pub fn unix_timestamp_now() -> (t: u64)
    ensures
        exists|since: Result<Duration, SystemTimeError>| t == reading_seconds(since),
{
    let now = system_time_now();
    let since = since_unix_epoch(&now);
    let ghost g = since;
    let t = timestamp_from(since);
    assert(t == reading_seconds(g));
    t
}

} // verus!
