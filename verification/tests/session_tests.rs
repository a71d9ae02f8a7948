use subtitle_pipeline::accumulator::Energy;
use subtitle_pipeline::capture::{CaptureConfig, SourceKind};
use subtitle_pipeline::encoder::{ContainerFormat, SampleEncoding};
use subtitle_pipeline::session::{CaptureSession, EncodeJob};

const LOUD: Energy = Energy { bits: 0x3F00_0000 };
const SILENT: Energy = Energy { bits: 0 };

fn config() -> CaptureConfig {
    CaptureConfig { channel_count: 2, sample_rate: 2, source_kind: SourceKind::Output }
}

fn format() -> ContainerFormat {
    ContainerFormat { channels: 2, sample_rate: 2, bits_per_sample: 32, encoding: SampleEncoding::Float }
}

#[test]
fn a_new_session_has_gathered_and_admitted_nothing() {
    let session: CaptureSession<f32> = CaptureSession::open(config());
    assert_eq!(session.format(), config());
    assert_eq!(session.admitted_count(), 0);
    assert!(session.window().is_empty());
}

#[test]
fn admitted_windows_are_numbered_in_closing_order() {
    let mut session: CaptureSession<f32> = CaptureSession::open(config());
    assert!(!session.accumulate(&[0.5; 19]));
    assert!(session.accumulate(&[0.5; 2]));
    assert_eq!(
        session.close_window(LOUD),
        Some(EncodeJob {
            file_name: "temp_capture_0.wav".to_string(),
            format: format(),
            samples: vec![0.5; 21],
        })
    );
    assert!(session.window().is_empty());
    assert!(session.accumulate(&[0.25; 20]));
    assert_eq!(
        session.close_window(LOUD),
        Some(EncodeJob {
            file_name: "temp_capture_1.wav".to_string(),
            format: format(),
            samples: vec![0.25; 20],
        })
    );
    assert_eq!(session.admitted_count(), 2);
}

#[test]
fn a_silent_window_uses_up_no_name() {
    let mut session: CaptureSession<f32> = CaptureSession::open(config());
    assert!(session.accumulate(&[0.0; 20]));
    assert_eq!(session.close_window(SILENT), None);
    assert!(session.window().is_empty());
    assert_eq!(session.admitted_count(), 0);
    assert!(session.accumulate(&[0.5; 20]));
    let job = session.close_window(LOUD).unwrap();
    assert_eq!(job.file_name, "temp_capture_0.wav");
}

#[test]
fn closing_an_incomplete_window_does_nothing() {
    let mut session: CaptureSession<f32> = CaptureSession::open(config());
    assert!(!session.accumulate(&[0.5; 19]));
    assert_eq!(session.close_window(LOUD), None);
    assert_eq!(session.window().len(), 19);
    assert_eq!(session.admitted_count(), 0);
}
