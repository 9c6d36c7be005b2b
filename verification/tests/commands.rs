use respondent_lib::clock::{signed_timestamp, unix_timestamp};
use respondent_lib::commands::{
    end_session, list_audio_output_devices, session_id_from_millis, start_session,
};

#[test]
fn start_session_rejects_empty_title() {
    assert!(start_session(String::new(), "default-output".into()).is_err());
}

#[test]
fn start_session_rejects_empty_output_device() {
    assert!(start_session("Customer call".into(), String::new()).is_err());
}

#[test]
fn start_session_accepts_valid_input() {
    let id = start_session("Customer call".into(), "default-output".into())
        .expect("valid session start");
    assert!(id.starts_with("session-"));
}

#[test]
fn end_session_rejects_empty_id() {
    assert!(end_session(String::new()).is_err());
}

#[test]
fn end_session_accepts_non_empty_id() {
    assert!(end_session("session-123".into()).is_ok());
}

#[test]
fn session_errors_name_the_blank_field() {
    assert_eq!(
        start_session("  ".into(), " ".into()).unwrap_err(),
        "Session title cannot be empty"
    );
    assert_eq!(
        start_session("Call".into(), "\t".into()).unwrap_err(),
        "Output device id cannot be empty"
    );
    assert_eq!(end_session(" \n".into()).unwrap_err(), "Session id cannot be empty");
}

#[test]
fn session_ids_render_milliseconds_in_decimal() {
    assert_eq!(session_id_from_millis(0), "session-0");
    assert_eq!(session_id_from_millis(1_718_000_000_123), "session-1718000000123");
    assert_eq!(session_id_from_millis(-45), "session--45");
    assert_eq!(session_id_from_millis(i64::MIN), format!("session-{}", i64::MIN));
    let id = start_session("Call".into(), "default-output".into()).unwrap();
    let millis: i64 = id["session-".len()..].parse().expect("decimal millis");
    assert!(millis > 1_600_000_000_000);
}

#[test]
fn audio_output_device_command_lists_default_device() {
    let devices = list_audio_output_devices();
    assert_eq!(devices.len(), 1);
    assert_eq!(devices[0].id, "default-output");
}

#[test]
fn signed_timestamps_cover_times_before_1970() {
    assert_eq!(signed_timestamp(true, 5, 7), Some((5, 7)));
    assert_eq!(signed_timestamp(false, 5, 0), Some((-5, 0)));
    assert_eq!(signed_timestamp(false, 5, 250_000_000), Some((-6, 750_000_000)));
    assert_eq!(signed_timestamp(true, u64::MAX, 0), None);
    let (secs, nanos) = unix_timestamp().expect("clock in range");
    assert!(secs > 1_600_000_000 && nanos < 1_000_000_000);
}
