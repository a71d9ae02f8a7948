use subtitle_pipeline::capture::{CaptureConfig, SourceKind};
use subtitle_pipeline::encoder::{ChunkEncoder, ContainerFormat, SampleEncoding};

#[test]
fn file_names_count_up_from_zero() {
    let mut encoder = ChunkEncoder::new();
    assert_eq!(encoder.issued(), 0);
    assert_eq!(encoder.next_file_name(), "temp_capture_0.wav");
    assert_eq!(encoder.next_file_name(), "temp_capture_1.wav");
    assert_eq!(encoder.issued(), 2);
    for _ in 2..10 {
        encoder.next_file_name();
    }
    assert_eq!(encoder.next_file_name(), "temp_capture_10.wav");
    assert_eq!(encoder.issued(), 11);
}

#[test]
fn file_names_of_one_session_do_not_repeat() {
    let mut encoder = ChunkEncoder::new();
    let mut names: Vec<String> = Vec::new();
    for _ in 0..250 {
        let name = encoder.next_file_name();
        assert!(!names.contains(&name));
        names.push(name);
    }
}

#[test]
fn container_is_float_pcm_in_the_format_of_the_stream() {
    let config = CaptureConfig { channel_count: 2, sample_rate: 44100, source_kind: SourceKind::Output };
    assert_eq!(
        ChunkEncoder::container_format(&config),
        ContainerFormat {
            channels: 2,
            sample_rate: 44100,
            bits_per_sample: 32,
            encoding: SampleEncoding::Float,
        }
    );
}
