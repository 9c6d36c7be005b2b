//! The commands the frontend invokes: listing output devices and starting
//! and ending a session.

use vstd::prelude::*;
use vstd::string::*;
use crate::audio::devices::{list_output_devices, OutputDevice, DEFAULT_OUTPUT_ID, DEFAULT_OUTPUT_NAME};
use crate::clock::unix_timestamp;
use crate::text::{int_decimal, is_blank, is_blank_seq, push_signed_decimal};

verus! {

/// `chrono::DateTime::<chrono::Utc>::from_timestamp`, handed over as
/// milliseconds since the Unix epoch by `chrono::DateTime::timestamp_millis`;
/// `None` where chrono refuses the timestamp (out of its range of dates).
/// Claimed: for a fraction under one second, the milliseconds are the
/// seconds times 1000 plus the whole milliseconds of the fraction, as the
/// documented round trip `from_timestamp(dt.timestamp(),
/// dt.timestamp_subsec_nanos()) == dt` gives. Where chrono's range ends is
/// not stated.
#[verifier::external_body]
fn utc_millis_from_timestamp(secs: i64, nanos: u32) -> (r: Option<i64>)
    ensures
        nanos < 1_000_000_000 ==> (r matches Some(ms) ==> ms == secs * 1000 + nanos / 1_000_000),
{
    match chrono::DateTime::<chrono::Utc>::from_timestamp(secs, nanos) {
        Some(time) => Some(time.timestamp_millis()),
        None => None,
    }
}

/// The message for a clock whose time cannot be represented.
pub const CLOCK_OUT_OF_RANGE_MESSAGE: &'static str = "System clock is out of range";

/// The message for a blank session title.
pub const EMPTY_TITLE_MESSAGE: &'static str = "Session title cannot be empty";

/// The message for a blank output device id.
pub const EMPTY_DEVICE_MESSAGE: &'static str = "Output device id cannot be empty";

/// The message for a blank session id.
pub const EMPTY_SESSION_ID_MESSAGE: &'static str = "Session id cannot be empty";

/// The output devices on offer.
pub fn list_audio_output_devices() -> (r: Vec<OutputDevice>)
    ensures
        r.len() == 1,
        r[0].id@ == DEFAULT_OUTPUT_ID@,
        r[0].name@ == DEFAULT_OUTPUT_NAME@,
        r[0].is_default,
{
    list_output_devices()
}

/// The identifier of a session started at `millis` since the Unix epoch.
pub open spec fn session_id_at(millis: int) -> Seq<char> {
    "session-"@ + int_decimal(millis)
}

/// The identifier of a session started at `millis` since the Unix epoch.
pub fn session_id_from_millis(millis: i64) -> (r: String)
    ensures
        r@ == session_id_at(millis as int),
{
    let mut id = String::from_str("session-");
    push_signed_decimal(&mut id, millis);
    id
}

/// The error of a session start: a blank title first, then a blank device.
pub open spec fn start_session_error(title: Seq<char>, output_device_id: Seq<char>) -> Option<
    Seq<char>,
> {
    if is_blank_seq(title) {
        Some(EMPTY_TITLE_MESSAGE@)
    } else if is_blank_seq(output_device_id) {
        Some(EMPTY_DEVICE_MESSAGE@)
    } else {
        None
    }
}

/// Starts a session; its identifier is `session-` followed by the current
/// time in milliseconds since the Unix epoch. A blank title, then a blank
/// device, is refused; so is a clock whose time cannot be represented.
pub fn start_session(title: String, output_device_id: String) -> (r: Result<String, String>)
    ensures
        start_session_error(title@, output_device_id@) matches Some(e) ==> r matches Err(m) && m@
            == e,
        r matches Ok(id) ==> exists|millis: i64| id@ == session_id_at(millis as int),
        start_session_error(title@, output_device_id@) is None ==> (r matches Err(m) ==> m@
            == CLOCK_OUT_OF_RANGE_MESSAGE@),
{
    if is_blank(title.as_str()) {
        return Err(String::from_str(EMPTY_TITLE_MESSAGE));
    }
    if is_blank(output_device_id.as_str()) {
        return Err(String::from_str(EMPTY_DEVICE_MESSAGE));
    }
    let millis: i64 = match unix_timestamp() {
        Some((secs, nanos)) => match utc_millis_from_timestamp(secs, nanos) {
            Some(ms) => ms,
            None => return Err(String::from_str(CLOCK_OUT_OF_RANGE_MESSAGE)),
        },
        None => return Err(String::from_str(CLOCK_OUT_OF_RANGE_MESSAGE)),
    };
    let id = session_id_from_millis(millis);
    assert(id@ == session_id_at(millis as int));
    Ok(id)
}

/// Ends the session `session_id`, which must not be blank.
pub fn end_session(session_id: String) -> (r: Result<(), String>)
    ensures
        r is Err <==> is_blank_seq(session_id@),
        r matches Err(m) ==> m@ == EMPTY_SESSION_ID_MESSAGE@,
{
    if is_blank(session_id.as_str()) {
        return Err(String::from_str(EMPTY_SESSION_ID_MESSAGE));
    }
    Ok(())
}

/// Every session identifier begins with `session-`.
pub proof fn session_ids_start_with_prefix(millis: int)
    ensures
        session_id_at(millis).subrange(0, "session-"@.len() as int) == "session-"@,
{
    assert(session_id_at(millis).subrange(0, "session-"@.len() as int) =~= "session-"@);
}

} // verus!
