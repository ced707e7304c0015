use raflow::metrics::{MetricSummary, RollingMetric, RuntimeMetrics, DEFAULT_WINDOW_SIZE};

#[test]
fn empty_window_reports_zeroes() {
    assert_eq!(
        MetricSummary::empty(),
        MetricSummary { samples: 0, average_ms: 0, p95_ms: 0, max_ms: 0 }
    );
    let metric = RollingMetric::new(DEFAULT_WINDOW_SIZE);
    assert_eq!(metric.summary(), MetricSummary::empty());
}

#[test]
fn summary_reports_exact_statistics() {
    let mut metric = RollingMetric::new(DEFAULT_WINDOW_SIZE);
    for v in 1..=100u64 {
        metric.record(v);
    }
    let summary = metric.summary();
    assert_eq!(summary.samples, 100);
    assert_eq!(summary.average_ms, 50); // 5050 / 100
    assert_eq!(summary.p95_ms, 95); // index ceil(95) - 1 of 1..=100
    assert_eq!(summary.max_ms, 100);
}

#[test]
fn tiny_window_p95_is_the_maximum() {
    let mut metric = RollingMetric::new(DEFAULT_WINDOW_SIZE);
    metric.record(7);
    let summary = metric.summary();
    assert_eq!(summary.samples, 1);
    assert_eq!(summary.p95_ms, 7);
    assert_eq!(summary.max_ms, 7);
}

#[test]
fn rolling_window_evicts_the_oldest_sample() {
    let mut metric = RollingMetric::new(4);
    for v in [10u64, 20, 30, 40, 50] {
        metric.record(v);
    }
    let summary = metric.summary();
    assert_eq!(summary.samples, 4);
    assert_eq!(summary.average_ms, 35); // (20+30+40+50)/4
    assert_eq!(summary.max_ms, 50);
}

#[test]
fn report_carries_counters_and_summaries() {
    let mut metrics = RuntimeMetrics::new();
    metrics.record_audio_processing(12);
    metrics.record_network_send(30, 3);
    metrics.record_network_send(50, 2);
    metrics.record_injection(40);

    let report = metrics.report();
    assert_eq!(report.audio_processing.samples, 1);
    assert_eq!(report.network_send.samples, 2);
    assert_eq!(report.network_send.average_ms, 40);
    assert_eq!(report.sent_audio_batches, 2);
    assert_eq!(report.sent_audio_chunks, 5);
    assert_eq!(report.injection.max_ms, 40);
    assert!(report.warnings.is_empty());
}

#[test]
fn report_synthesizes_warning_lines() {
    let mut metrics = RuntimeMetrics::new();
    metrics.record_audio_drop(2);
    metrics.record_committed_drop(3);
    metrics.record_end_to_end(600);

    let report = metrics.report();
    assert_eq!(report.dropped_audio_chunks, 2);
    assert_eq!(report.dropped_committed_transcripts, 3);
    assert_eq!(
        report.warnings,
        vec![
            "Dropped 2 audio chunks due to backpressure.".to_string(),
            "Dropped 3 committed transcripts because queue was full.".to_string(),
            "End-to-end P95 latency 600ms exceeded target 500ms.".to_string(),
        ]
    );
}
