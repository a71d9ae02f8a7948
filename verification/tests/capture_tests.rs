use subtitle_pipeline::capture::{
    CaptureConfig, DeviceError, SourceKind, CAPTURE_POLL_MILLIS, CHUNK_SECONDS,
};

#[test]
fn only_the_word_output_selects_the_output() {
    assert_eq!(SourceKind::from_name("output"), SourceKind::Output);
    assert_eq!(SourceKind::from_name("input"), SourceKind::Input);
    assert_eq!(SourceKind::from_name("Output"), SourceKind::Input);
    assert_eq!(SourceKind::from_name(""), SourceKind::Input);
    assert_eq!(SourceKind::from_name("output "), SourceKind::Input);
}

#[test]
fn target_is_five_seconds_of_interleaved_samples() {
    let mono = CaptureConfig { channel_count: 1, sample_rate: 16000, source_kind: SourceKind::Input };
    assert_eq!(mono.target_sample_count(), 80000);
    let stereo = CaptureConfig { channel_count: 2, sample_rate: 48000, source_kind: SourceKind::Output };
    assert_eq!(stereo.target_sample_count(), 480000);
    assert_eq!(CHUNK_SECONDS, 5);
    assert_eq!(CAPTURE_POLL_MILLIS, 200);
}

#[test]
fn target_of_the_largest_format_does_not_wrap() {
    let config = CaptureConfig {
        channel_count: u16::MAX,
        sample_rate: u32::MAX,
        source_kind: SourceKind::Input,
    };
    assert_eq!(config.target_sample_count(), 4294967295u64 * 65535 * 5);
    let none = CaptureConfig { channel_count: 0, sample_rate: 44100, source_kind: SourceKind::Input };
    assert_eq!(none.target_sample_count(), 0);
}

#[test]
fn device_errors_are_reported_in_brackets() {
    assert_eq!(DeviceError::NoDevice.report(), "[Error: No audio device found.]");
    let failed = DeviceError::ConfigFailed { detail: "device busy".to_string() };
    assert_eq!(failed.report(), "[Error: Audio config failed: device busy]");
}
