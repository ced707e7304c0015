use raflow::audio::{
    detect_voice_activity, is_silent_chunk, mark_dropped, max_abs_sample, record_backpressure_drop,
    sum_squares, AudioBatcher, AudioConfig, AudioError, MAX_AUDIO_BATCH_CHUNKS,
};

#[test]
fn silence_detector_accepts_zero_chunk() {
    let input = vec![0_i16; 1600];
    assert!(is_silent_chunk(&input));
    assert_eq!(sum_squares(&input), 0);
}

#[test]
fn silence_detector_rejects_voice_like_chunk() {
    let mut input = Vec::with_capacity(1600);
    for i in 0..1600 {
        let phase = (i as f32) * 0.08;
        let sample = (phase.sin() * 6000.0) as i16;
        input.push(sample);
    }

    assert!(!is_silent_chunk(&input));
}

#[test]
fn max_abs_handles_i16_min() {
    let input = vec![i16::MIN, -120, 80];
    assert_eq!(max_abs_sample(&input), i16::MAX);
    assert!(max_abs_sample(&input) > 120);
}

#[test]
fn voice_activity_detects_peak_signal() {
    let input = vec![0_i16, 80 + 20, 0_i16];
    assert!(detect_voice_activity(&input));
}

#[test]
fn voice_activity_ignores_empty_and_faint_chunks() {
    assert!(!detect_voice_activity(&[]));
    assert!(!detect_voice_activity(&[1_i16, -1, 2, -2]));
}

#[test]
fn default_config_matches_capture_profile() {
    let config = AudioConfig::default();
    assert_eq!(config.input_sample_rate, 48_000);
    assert_eq!(config.target_sample_rate, 16_000);
    assert_eq!(config.channels, 1);
    assert_eq!(config.buffer_size, 480);
    assert_eq!(config.chunk_duration_ms, 100);
    assert!(config.validate_for_capture().is_ok());
    assert!(config.denoiser_active());
}

#[test]
fn config_validation_rejects_bad_fields() {
    let mut config = AudioConfig::default();
    config.channels = 2;
    assert!(matches!(
        config.validate_for_capture(),
        Err(AudioError::InvalidConfig(_))
    ));
    config.channels = 1;
    config.buffer_size = 0;
    assert!(matches!(
        config.validate_for_capture(),
        Err(AudioError::InvalidConfig(_))
    ));
}

#[test]
fn ring_capacity_and_chunk_target_follow_the_rates() {
    let config = AudioConfig::default();
    assert_eq!(config.ring_capacity(), 200);
    assert_eq!(config.chunk_target_samples(), 4800);

    let mut tiny = AudioConfig::default();
    tiny.input_sample_rate = 8_000;
    tiny.buffer_size = 4_000;
    assert_eq!(tiny.ring_capacity(), 64);
}

#[test]
fn drop_counters_warn_on_schedule() {
    let mut dropped: u64 = 98;
    assert!(!mark_dropped(&mut dropped));
    assert!(mark_dropped(&mut dropped));
    assert_eq!(dropped, 100);

    let mut backpressure: u64 = 48;
    assert!(!record_backpressure_drop(&mut backpressure));
    assert!(record_backpressure_drop(&mut backpressure));
    assert_eq!(backpressure, 50);
}

#[test]
fn batcher_flushes_after_three_chunks() {
    let mut batcher = AudioBatcher::new(false);
    let chunk = vec![1000_i16; 1600];

    let first = batcher.accept_chunk(&chunk);
    assert!(first.voice_activity);
    assert!(!first.flush);
    let second = batcher.accept_chunk(&chunk);
    assert!(!second.flush);
    let third = batcher.accept_chunk(&chunk);
    assert!(third.flush);

    let (samples, chunks) = batcher.take_batch();
    assert_eq!(chunks, MAX_AUDIO_BATCH_CHUNKS);
    assert_eq!(samples.len(), 3 * 1600);
    assert!(!batcher.has_pending());
}

#[test]
fn batcher_ignores_empty_chunks_and_suppresses_long_silence() {
    let mut batcher = AudioBatcher::new(true);
    let silent = vec![0_i16; 1600];

    let empty = batcher.accept_chunk(&Vec::new());
    assert!(!empty.voice_activity);
    assert!(!empty.suppressed);

    let mut suppressed_seen = 0;
    for _ in 0..20 {
        let decision = batcher.accept_chunk(&silent);
        if decision.suppressed {
            suppressed_seen += 1;
        }
        if decision.flush {
            batcher.take_batch();
        }
    }
    // twelve silent chunks pass, the following eight are suppressed
    assert_eq!(suppressed_seen, 8);
}
