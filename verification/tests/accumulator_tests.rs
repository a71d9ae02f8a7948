use subtitle_pipeline::accumulator::{
    ChunkAccumulator, CompletedChunk, Energy, SilenceGate, POSITIVE_INFINITY_BITS,
    SILENCE_THRESHOLD_BITS,
};
use subtitle_pipeline::capture::{CaptureConfig, SourceKind};

fn rms(samples: &[f32]) -> f32 {
    let mut sum = 0.0f32;
    for sample in samples {
        sum += sample * sample;
    }
    (sum / samples.len() as f32).sqrt()
}

fn energy_of(samples: &[f32]) -> Energy {
    Energy { bits: rms(samples).to_bits() }
}

fn mono_16k() -> CaptureConfig {
    CaptureConfig { channel_count: 1, sample_rate: 16000, source_kind: SourceKind::Input }
}

fn tiny() -> CaptureConfig {
    CaptureConfig { channel_count: 2, sample_rate: 1, source_kind: SourceKind::Input }
}

#[test]
fn threshold_constants_are_the_bit_patterns_they_name() {
    assert_eq!(SILENCE_THRESHOLD_BITS, 0.0001f32.to_bits());
    assert_eq!(POSITIVE_INFINITY_BITS, f32::INFINITY.to_bits());
}

#[test]
fn gate_agrees_with_the_comparison_of_the_numbers() {
    let threshold = 0.0001f32;
    let values = [
        0.0f32,
        -0.0,
        f32::MIN_POSITIVE,
        0.00009999,
        threshold,
        f32::from_bits(threshold.to_bits() - 1),
        f32::from_bits(threshold.to_bits() + 1),
        0.00010001,
        0.5,
        1.0,
        f32::MAX,
        f32::INFINITY,
        f32::NEG_INFINITY,
        -1.0,
        -0.0002,
        f32::NAN,
        -f32::NAN,
        f32::from_bits(0x7F80_0001),
        f32::from_bits(0xFFFF_FFFF),
    ];
    for value in values {
        assert_eq!(
            SilenceGate::admits(Energy { bits: value.to_bits() }),
            value > threshold,
            "value with bits {:#x}",
            value.to_bits()
        );
    }
}

#[test]
fn energy_at_the_threshold_is_not_admitted() {
    assert!(!SilenceGate::admits(Energy { bits: SILENCE_THRESHOLD_BITS }));
    assert!(SilenceGate::admits(Energy { bits: SILENCE_THRESHOLD_BITS + 1 }));
    assert!(SilenceGate::admits(Energy { bits: POSITIVE_INFINITY_BITS }));
    assert!(!SilenceGate::admits(Energy { bits: POSITIVE_INFINITY_BITS + 1 }));
    assert!(!SilenceGate::admits(Energy { bits: 0 }));
}

#[test]
fn five_seconds_of_silence_emit_nothing_and_clear_the_buffer() {
    let mut accumulator: ChunkAccumulator<f32> = ChunkAccumulator::new(&mono_16k());
    assert_eq!(accumulator.target_len(), 80000);
    let callback = vec![0.0f32; 1600];
    let mut complete = false;
    for round in 0..50 {
        assert!(!complete, "window closed early, after {} callbacks", round);
        complete = accumulator.accumulate(&callback);
    }
    assert!(complete);
    assert_eq!(accumulator.window().len(), 80000);
    let energy = energy_of(accumulator.window());
    assert_eq!(energy.bits, 0);
    assert_eq!(accumulator.drain(energy), None);
    assert_eq!(accumulator.window().len(), 0);
}

#[test]
fn a_loud_window_is_emitted_whole_and_once() {
    let mut accumulator: ChunkAccumulator<f32> = ChunkAccumulator::new(&tiny());
    assert_eq!(accumulator.target_len(), 10);
    assert!(!accumulator.accumulate(&[0.5, -0.5, 0.25]));
    assert!(!accumulator.accumulate(&[0.0, 0.0, 0.0, 0.0]));
    assert!(accumulator.accumulate(&[0.1, 0.2, 0.3, 0.4]));
    let expected = vec![0.5f32, -0.5, 0.25, 0.0, 0.0, 0.0, 0.0, 0.1, 0.2, 0.3, 0.4];
    assert_eq!(accumulator.window(), expected.as_slice());
    let energy = energy_of(accumulator.window());
    assert!(SilenceGate::admits(energy));
    assert_eq!(accumulator.drain(energy), Some(CompletedChunk { samples: expected }));
    assert_eq!(accumulator.window().len(), 0);
    assert_eq!(accumulator.drain(energy), None);
}

#[test]
fn an_incomplete_window_is_left_alone() {
    let mut accumulator: ChunkAccumulator<f32> = ChunkAccumulator::new(&tiny());
    assert!(!accumulator.accumulate(&[1.0, 1.0, 1.0]));
    let energy = energy_of(accumulator.window());
    assert_eq!(accumulator.drain(energy), None);
    assert_eq!(accumulator.window(), &[1.0f32, 1.0, 1.0]);
    assert_eq!(accumulator.target_len(), 10);
}

#[test]
fn nothing_is_carried_into_the_next_window() {
    let mut accumulator: ChunkAccumulator<i16> = ChunkAccumulator::new(&tiny());
    assert!(accumulator.accumulate(&[1; 13]));
    let chunk = accumulator.drain(Energy { bits: 1.0f32.to_bits() });
    assert_eq!(chunk, Some(CompletedChunk { samples: vec![1i16; 13] }));
    assert!(!accumulator.accumulate(&[2; 9]));
    assert!(accumulator.accumulate(&[3]));
    let mut second = vec![2i16; 9];
    second.push(3);
    assert_eq!(
        accumulator.drain(Energy { bits: 1.0f32.to_bits() }),
        Some(CompletedChunk { samples: second })
    );
}

#[test]
fn a_window_quieter_than_the_threshold_is_dropped() {
    let mut accumulator: ChunkAccumulator<f32> = ChunkAccumulator::new(&tiny());
    assert!(accumulator.accumulate(&[0.00005f32; 10]));
    let energy = energy_of(accumulator.window());
    assert!(rms(accumulator.window()) <= 0.0001);
    assert_eq!(accumulator.drain(energy), None);
    assert_eq!(accumulator.window().len(), 0);
}

#[test]
fn a_window_of_length_zero_closes_at_once() {
    let config = CaptureConfig { channel_count: 0, sample_rate: 44100, source_kind: SourceKind::Input };
    let mut accumulator: ChunkAccumulator<f32> = ChunkAccumulator::new(&config);
    assert!(accumulator.accumulate(&[]));
    let energy = energy_of(accumulator.window());
    assert!(rms(accumulator.window()).is_nan());
    assert_eq!(accumulator.drain(energy), None);
}
