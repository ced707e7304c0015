use raflow::commit::{
    commit_is_stale, is_plausible_epoch_ms, partial_is_stale, resolve_commit,
    should_drop_low_confidence_committed, update_voice_activity, CommittedQueue,
    CommittedTranscript, COMMITTED_QUEUE_CAPACITY,
};
use raflow::reconcile::{LivePartialTracker, TranscriptInjectionMode};

#[test]
fn confidence_zero_is_not_dropped() {
    assert!(!should_drop_low_confidence_committed(0));
}

#[test]
fn positive_low_confidence_is_dropped() {
    assert!(should_drop_low_confidence_committed(10));
}

#[test]
fn confidence_at_threshold_is_kept() {
    assert!(!should_drop_low_confidence_committed(100));
    assert!(!should_drop_low_confidence_committed(970));
}

#[test]
fn staleness_gates_follow_their_windows() {
    assert!(commit_is_stale(10_000, 0));
    assert!(commit_is_stale(10_000, 3_000));
    assert!(!commit_is_stale(10_000, 4_000));
    assert!(partial_is_stale(10_000, 7_000));
    assert!(!partial_is_stale(10_000, 8_500));
}

#[test]
fn voice_activity_updates_only_on_voice() {
    let mut last: u64 = 0;
    update_voice_activity(&mut last, 500, false);
    assert_eq!(last, 0);
    update_voice_activity(&mut last, 500, true);
    assert_eq!(last, 500);
    update_voice_activity(&mut last, 900, true);
    assert_eq!(last, 900);
}

#[test]
fn plausible_epoch_needs_thirteen_digits() {
    assert!(!is_plausible_epoch_ms(999_999_999_999));
    assert!(is_plausible_epoch_ms(1_000_000_000_001));
}

#[test]
fn committed_queue_is_fifo() {
    let mut queue = CommittedQueue::new();
    for i in 0..3u32 {
        let dropped = queue.enqueue(CommittedTranscript {
            text: format!("t{i}"),
            confidence_milli: 900,
            created_at_ms: i as u64,
        });
        assert_eq!(dropped, 0);
    }
    assert_eq!(queue.len(), 3);
    assert_eq!(queue.dequeue().unwrap().text, "t0");
    assert_eq!(queue.dequeue().unwrap().text, "t1");
    assert_eq!(queue.dequeue().unwrap().text, "t2");
    assert!(queue.dequeue().is_none());
}

#[test]
fn committed_queue_drops_oldest_past_capacity() {
    let mut queue = CommittedQueue::new();
    for i in 0..COMMITTED_QUEUE_CAPACITY {
        let dropped = queue.enqueue(CommittedTranscript {
            text: format!("t{i}"),
            confidence_milli: 0,
            created_at_ms: 0,
        });
        assert_eq!(dropped, 0);
    }
    assert_eq!(queue.len(), COMMITTED_QUEUE_CAPACITY);

    let dropped = queue.enqueue(CommittedTranscript {
        text: "overflow".to_string(),
        confidence_milli: 0,
        created_at_ms: 0,
    });
    assert_eq!(dropped, 1);
    assert_eq!(queue.len(), COMMITTED_QUEUE_CAPACITY);
    assert_eq!(queue.dequeue().unwrap().text, "t1");
}

#[test]
fn commit_with_injected_prefix_yields_punctuation_delta() {
    let mut tracker = LivePartialTracker::default();
    tracker.injected_text = "hello world".to_string();
    tracker.mode = TranscriptInjectionMode::RealtimeCursor;

    let outcome = resolve_commit(&mut tracker, "hello world.");
    assert!(outcome.clipboard_text.is_none());
    assert_eq!(outcome.injection_text.as_deref(), Some("."));
    assert_eq!(tracker.injected_text, "");
    assert_eq!(tracker.mode, TranscriptInjectionMode::RealtimeCursor);
}

#[test]
fn commit_with_diverging_text_injects_nothing() {
    let mut tracker = LivePartialTracker::default();
    tracker.injected_text = "hello world".to_string();
    tracker.mode = TranscriptInjectionMode::RealtimeCursor;

    let outcome = resolve_commit(&mut tracker, "hello world again");
    assert!(outcome.clipboard_text.is_none());
    assert!(outcome.injection_text.is_none());
}

#[test]
fn commit_without_injected_text_goes_to_clipboard() {
    let mut tracker = LivePartialTracker::default();
    let outcome = resolve_commit(&mut tracker, "hello world.");
    assert_eq!(outcome.clipboard_text.as_deref(), Some("hello world."));
    assert!(outcome.injection_text.is_none());
    assert_eq!(tracker.pending_clipboard_text, "hello world.");
}

#[test]
fn clipboard_only_commit_ignores_injected_text() {
    let mut tracker = LivePartialTracker::default();
    tracker.mode = TranscriptInjectionMode::ClipboardOnly;
    tracker.injected_text = "left-over".to_string();

    let outcome = resolve_commit(&mut tracker, "fresh text.");
    assert!(outcome.injection_text.is_none());
    assert_eq!(outcome.clipboard_text.as_deref(), Some("fresh text."));
    assert_eq!(tracker.mode, TranscriptInjectionMode::ClipboardOnly);
}
