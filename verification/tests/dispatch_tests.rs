use raflow::commit::CommittedQueue;
use raflow::dispatch::dispatch_scribe_event;
use raflow::network::ScribeEvent;
use raflow::reconcile::{
    LivePartialTracker, PartialInjectionPlan, PartialRewriteConfig, TranscriptInjectionMode,
};

fn rewrite_config() -> PartialRewriteConfig {
    PartialRewriteConfig { enabled: true, max_backspace: 12, window_ms: 0 }
}

struct Session {
    tracker: LivePartialTracker,
    queue: CommittedQueue,
}

impl Session {
    fn new() -> Self {
        Session { tracker: LivePartialTracker::default(), queue: CommittedQueue::new() }
    }

    fn dispatch(
        &mut self,
        event: ScribeEvent,
        cursor_available: bool,
        now_ms: u64,
        last_voice_ms: u64,
    ) -> raflow::dispatch::DispatchOutcome {
        dispatch_scribe_event(
            &mut self.tracker,
            &mut self.queue,
            event,
            "eng",
            cursor_available,
            now_ms,
            last_voice_ms,
            &rewrite_config(),
        )
    }
}

#[test]
fn session_start_reports_listening() {
    let mut session = Session::new();
    let outcome = session.dispatch(
        ScribeEvent::SessionStarted { session_id: "abc123".to_string() },
        true,
        1_000,
        0,
    );
    assert_eq!(outcome.state_label.as_deref(), Some("Listening"));
    assert_eq!(outcome.session_started.as_deref(), Some("abc123"));
    assert!(outcome.partial_plan.is_none());
}

#[test]
fn fresh_partial_is_planned_and_emitted() {
    let mut session = Session::new();
    let outcome = session.dispatch(
        ScribeEvent::PartialTranscript { text: " hello ".to_string(), created_at_ms: 0 },
        true,
        10_000,
        9_500,
    );
    assert_eq!(outcome.partial_text_event.as_deref(), Some("hello"));
    match outcome.partial_plan {
        Some(PartialInjectionPlan::Append { ref delta, .. }) => assert_eq!(delta, "hello"),
        _ => panic!("a first partial should append"),
    }
}

#[test]
fn stale_partial_is_emitted_but_not_injected() {
    let mut session = Session::new();
    let outcome = session.dispatch(
        ScribeEvent::PartialTranscript { text: "hello".to_string(), created_at_ms: 0 },
        true,
        10_000,
        7_000,
    );
    assert_eq!(outcome.partial_text_event.as_deref(), Some("hello"));
    assert!(outcome.partial_plan.is_none());
}

#[test]
fn missing_cursor_switches_to_clipboard_mode() {
    let mut session = Session::new();
    let outcome = session.dispatch(
        ScribeEvent::PartialTranscript { text: "hello".to_string(), created_at_ms: 0 },
        false,
        10_000,
        9_500,
    );
    assert!(outcome.partial_plan.is_none());
    assert_eq!(session.tracker.mode, TranscriptInjectionMode::ClipboardOnly);
}

#[test]
fn commit_seven_seconds_after_voice_is_dropped() {
    let mut session = Session::new();
    let outcome = session.dispatch(
        ScribeEvent::CommittedTranscript {
            text: "hello world".to_string(),
            confidence_milli: Some(900),
            created_at_ms: 0,
        },
        true,
        10_000,
        3_000,
    );
    assert!(outcome.committed_text_event.is_none());
    assert!(!outcome.enqueued);
    assert_eq!(session.queue.len(), 0);
}

#[test]
fn non_finite_confidence_is_dropped() {
    let mut session = Session::new();
    let outcome = session.dispatch(
        ScribeEvent::CommittedTranscript {
            text: "hello world".to_string(),
            confidence_milli: None,
            created_at_ms: 0,
        },
        true,
        10_000,
        9_500,
    );
    assert!(outcome.committed_text_event.is_none());
    assert_eq!(session.queue.len(), 0);
}

#[test]
fn low_confidence_commit_is_dropped_but_zero_is_kept() {
    let mut session = Session::new();
    let dropped = session.dispatch(
        ScribeEvent::CommittedTranscript {
            text: "hello world".to_string(),
            confidence_milli: Some(50),
            created_at_ms: 0,
        },
        true,
        10_000,
        9_500,
    );
    assert!(dropped.committed_text_event.is_none());

    let kept = session.dispatch(
        ScribeEvent::CommittedTranscript {
            text: "hello world".to_string(),
            confidence_milli: Some(0),
            created_at_ms: 0,
        },
        true,
        10_000,
        9_500,
    );
    assert_eq!(kept.committed_text_event.as_deref(), Some("hello world."));
}

#[test]
fn commit_with_nothing_injected_goes_to_clipboard() {
    let mut session = Session::new();
    let outcome = session.dispatch(
        ScribeEvent::CommittedTranscript {
            text: "hello world".to_string(),
            confidence_milli: Some(900),
            created_at_ms: 0,
        },
        true,
        10_000,
        9_500,
    );
    assert_eq!(outcome.committed_text_event.as_deref(), Some("hello world."));
    assert_eq!(outcome.clipboard_text.as_deref(), Some("hello world."));
    assert!(!outcome.enqueued);
    assert_eq!(session.queue.len(), 0);
}

#[test]
fn commit_over_injected_prefix_queues_the_punctuation() {
    let mut session = Session::new();
    session.tracker.injected_text = "hello world".to_string();
    session.tracker.mode = TranscriptInjectionMode::RealtimeCursor;

    let outcome = session.dispatch(
        ScribeEvent::CommittedTranscript {
            text: "hello world".to_string(),
            confidence_milli: Some(900),
            created_at_ms: 1_700_000_000_000,
        },
        true,
        10_000,
        9_500,
    );
    assert_eq!(outcome.committed_text_event.as_deref(), Some("hello world."));
    assert!(outcome.enqueued);
    assert_eq!(outcome.queue_dropped, 0);
    let queued = session.queue.dequeue().expect("one queued delta");
    assert_eq!(queued.text, ".");
    assert_eq!(queued.confidence_milli, 900);
    assert_eq!(queued.created_at_ms, 1_700_000_000_000);
}

#[test]
fn error_events_surface_with_fallbacks() {
    let mut session = Session::new();
    let input = session.dispatch(
        ScribeEvent::InputError { error_message: "bad audio".to_string() },
        true,
        1_000,
        0,
    );
    assert_eq!(input.state_label.as_deref(), Some("Error"));
    assert_eq!(input.error_message.as_deref(), Some("bad audio"));

    let secondary = session.dispatch(
        ScribeEvent::Error { error_message: "  ".to_string(), error: "detail".to_string() },
        true,
        1_000,
        0,
    );
    assert_eq!(secondary.error_message.as_deref(), Some("detail"));

    let fallback = session.dispatch(
        ScribeEvent::AuthError { error_message: String::new(), error: String::new() },
        true,
        1_000,
        0,
    );
    assert_eq!(fallback.error_message.as_deref(), Some("authentication failed"));

    let quiet = session.dispatch(ScribeEvent::Unknown, true, 1_000, 0);
    assert!(quiet.state_label.is_none());
    assert!(quiet.error_message.is_none());
}
