use respondent_lib::audio::capture::{CaptureError, LoopbackCapture, SampleFormat, WasapiFormat};
use respondent_lib::audio::devices::list_output_devices;
use respondent_lib::audio::frame::{AudioFrame, PcmFormat};

#[test]
fn computes_frame_duration_for_16khz_mono_pcm() {
    // 320 i16 samples at 16 kHz mono = 320 / 16000 s = 20 ms.
    let frame = AudioFrame {
        format: PcmFormat {
            sample_rate: 16_000,
            channels: 1,
            bits_per_sample: 16,
        },
        samples: vec![0; 320],
        captured_at_ms: 100,
    };

    assert_eq!(frame.duration_ms(), 20);
}

#[test]
fn frame_duration_handles_degenerate_formats_and_stereo() {
    let mut frame = AudioFrame {
        format: PcmFormat { sample_rate: 0, channels: 1, bits_per_sample: 16 },
        samples: vec![0; 480],
        captured_at_ms: 0,
    };
    assert_eq!(frame.duration_ms(), 0);
    frame.format = PcmFormat { sample_rate: 48_000, channels: 0, bits_per_sample: 16 };
    assert_eq!(frame.duration_ms(), 0);
    frame.format = PcmFormat { sample_rate: 48_000, channels: 2, bits_per_sample: 16 };
    assert_eq!(frame.duration_ms(), 5);
    frame.samples = vec![0; 479];
    assert_eq!(frame.duration_ms(), 4);
}

#[test]
fn wasapi_accepts_only_matching_sample_widths() {
    let f = WasapiFormat::new(48_000, 2, 32, SampleFormat::Float32).expect("float32");
    assert_eq!(f.sample_rate, 48_000);
    assert_eq!(f.channels, 2);
    assert!(WasapiFormat::new(16_000, 1, 16, SampleFormat::Pcm16).is_ok());
    match WasapiFormat::new(48_000, 2, 16, SampleFormat::Float32) {
        Err(CaptureError::Unsupported(m)) => {
            assert_eq!(m, "unsupported WASAPI format: Float32 16-bit")
        }
        _ => panic!("float32 at 16 bits is unsupported"),
    }
    match WasapiFormat::new(48_000, 2, 24, SampleFormat::Pcm16) {
        Err(CaptureError::Unsupported(m)) => assert_eq!(m, "unsupported WASAPI format: Pcm16 24-bit"),
        _ => panic!("pcm16 at 24 bits is unsupported"),
    }
}

#[test]
fn loopback_capture_drops_new_frames_when_test_channel_is_full() {
    let mut capture = LoopbackCapture::new_for_test_with_capacity(1);
    let receiver = capture.receiver();
    assert_eq!(receiver.capacity(), Some(1));
    capture.push_test_frame(1);
    capture.push_test_frame(2);
    assert_eq!(capture.dropped_frames(), 1);
    let frame = receiver.try_recv().expect("first frame kept");
    assert_eq!(frame.captured_at_ms, 1);
    assert_eq!(frame.samples.len(), 320);
    assert_eq!(frame.format.sample_rate, 16_000);
    assert_eq!(frame.duration_ms(), 20);
    assert!(receiver.try_recv().is_err());
    capture.push_test_frame(3);
    assert_eq!(capture.dropped_frames(), 1);
    assert!(capture.stop().is_ok());
}

#[test]
fn device_capture_starts_with_no_drops_and_start_reports_platform() {
    let capture = LoopbackCapture::new_for_device("default-output");
    assert_eq!(capture.dropped_frames(), 0);
    assert_eq!(capture.receiver().capacity(), Some(128));
    assert_eq!(LoopbackCapture::new_for_test_with_capacity(0).receiver().capacity(), Some(0));
    match LoopbackCapture::start("default-output", false) {
        Err(CaptureError::Unsupported(m)) => {
            assert_eq!(m, "event-driven loopback requires Windows 10 or later")
        }
        _ => panic!("capture is unsupported"),
    }
    let mut started = LoopbackCapture::start("default-output", true).expect("loopback available");
    let receiver = started.receiver();
    assert_eq!(receiver.capacity(), Some(128));
    assert_eq!(started.dropped_frames(), 0);
    started.push_frame(AudioFrame {
        format: PcmFormat { sample_rate: 16_000, channels: 1, bits_per_sample: 16 },
        samples: vec![7; 320],
        captured_at_ms: 9,
    });
    let frame = receiver.try_recv().expect("frame delivered");
    assert_eq!(frame.samples[0], 7);
    assert_eq!(frame.captured_at_ms, 9);
}

#[test]
fn lists_the_default_output_device() {
    let devices = list_output_devices();
    assert_eq!(devices.len(), 1);
    assert_eq!(devices[0].id, "default-output");
    assert_eq!(devices[0].name, "Default output device");
    assert!(devices[0].is_default);
}

#[test]
fn capture_errors_display_their_cause() {
    assert_eq!(
        CaptureError::Unsupported("x".into()).message(),
        "unsupported capture configuration: x"
    );
    assert_eq!(
        CaptureError::ThreadJoin("panicked".into()).message(),
        "capture thread join failed: panicked"
    );
}
