//! The wall clock, read through `std::time::SystemTime`.

use vstd::prelude::*;

verus! {

/// A point in wall-clock time.
#[verifier::external_type_specification]
#[verifier::external_body]
pub struct ExSystemTime(std::time::SystemTime);

/// The error of a time that lies before the reference point.
#[verifier::external_type_specification]
#[verifier::external_body]
pub struct ExSystemTimeError(std::time::SystemTimeError);

/// `std::time::SystemTime::now`. Nothing is stated of it: it is the time.
#[verifier::external_body]
fn system_now() -> std::time::SystemTime {
    std::time::SystemTime::now()
}

/// `std::time::SystemTime::duration_since` the Unix epoch; an error when the
/// clock is set before 1970. Nothing is stated of the result: the time is
/// opaque here.
#[verifier::external_body]
fn since_unix_epoch(time: &std::time::SystemTime) -> Result<
    std::time::Duration,
    std::time::SystemTimeError,
> {
    time.duration_since(std::time::UNIX_EPOCH)
}

/// `std::time::Duration::as_millis`. Nothing is stated of the result: the
/// duration is opaque here.
#[verifier::external_body]
fn duration_millis(duration: &std::time::Duration) -> u128 {
    duration.as_millis()
}

/// `std::time::SystemTimeError::duration`: how far before the Unix epoch the
/// time lies. Nothing is stated of the result: the time is opaque here.
#[verifier::external_body]
fn error_duration(error: &std::time::SystemTimeError) -> std::time::Duration {
    error.duration()
}

/// `std::time::Duration::as_secs`: the whole seconds of a duration. Nothing
/// is stated of the result: the duration is opaque here.
#[verifier::external_body]
fn duration_secs(duration: &std::time::Duration) -> u64 {
    duration.as_secs()
}

/// `std::time::Duration::subsec_nanos`: the fractional part of a duration in
/// nanoseconds. Claimed: it is less than one second, as its documentation
/// says.
#[verifier::external_body]
fn duration_subsec_nanos(duration: &std::time::Duration) -> (r: u32)
    ensures
        r < 1_000_000_000,
{
    duration.subsec_nanos()
}

/// The signed Unix timestamp (whole seconds, and nanoseconds into that
/// second) of a time `secs` seconds and `nanos` nanoseconds after the epoch
/// (`after_epoch`) or before it; `None` when the seconds do not fit an `i64`.
pub open spec fn signed_timestamp_of(after_epoch: bool, secs: u64, nanos: u32) -> Option<(i64, u32)> {
    if secs > i64::MAX {
        None
    } else if after_epoch {
        Some((secs as i64, nanos))
    } else if nanos == 0 {
        Some(((-(secs as int)) as i64, 0u32))
    } else {
        Some((((-(secs as int)) - 1) as i64, (1_000_000_000 - nanos) as u32))
    }
}

/// The signed Unix timestamp of a time `secs` seconds and `nanos`
/// nanoseconds after (`after_epoch`) or before the epoch.
pub fn signed_timestamp(after_epoch: bool, secs: u64, nanos: u32) -> (r: Option<(i64, u32)>)
    requires
        nanos < 1_000_000_000,
    ensures
        r == signed_timestamp_of(after_epoch, secs, nanos),
        r matches Some((s, n)) ==> n < 1_000_000_000 && s * 1_000_000_000 + n == if after_epoch {
            secs * 1_000_000_000 + nanos
        } else {
            -(secs * 1_000_000_000 + nanos)
        },
{
    if secs > i64::MAX as u64 {
        None
    } else if after_epoch {
        Some((secs as i64, nanos))
    } else if nanos == 0 {
        Some((0 - (secs as i64), 0))
    } else {
        Some((0 - (secs as i64) - 1, 1_000_000_000 - nanos))
    }
}

/// The wall clock as a signed Unix timestamp (seconds, and nanoseconds into
/// that second), also before 1970; `None` when the seconds do not fit an
/// `i64`. Nothing is stated of the value beyond the nanoseconds being under
/// one second: it is the time.
pub fn unix_timestamp() -> (r: Option<(i64, u32)>)
    ensures
        r matches Some((_, n)) ==> n < 1_000_000_000,
{
    let now = system_now();
    match since_unix_epoch(&now) {
        Ok(elapsed) => signed_timestamp(true, duration_secs(&elapsed), duration_subsec_nanos(&elapsed)),
        Err(error) => {
            let before = error_duration(&error);
            signed_timestamp(false, duration_secs(&before), duration_subsec_nanos(&before))
        },
    }
}

/// Milliseconds since the Unix epoch by the wall clock, or `None` when the
/// clock is set before the epoch. Nothing is stated of the value: it is the
/// time.
pub fn unix_millis() -> Option<u128> {
    let now = system_now();
    match since_unix_epoch(&now) {
        Ok(elapsed) => Some(duration_millis(&elapsed)),
        Err(_) => None,
    }
}

} // verus!
