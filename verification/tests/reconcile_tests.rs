use raflow::reconcile::{
    append_to_pending_clipboard, apply_partial_failure, apply_partial_success,
    plan_partial_injection, LivePartialTracker, PartialInjectionPlan, PartialRewriteConfig,
    TranscriptInjectionMode,
};
use raflow::text::{common_prefix_char_count, suffix_from_char_index};

fn rewrite_config() -> PartialRewriteConfig {
    PartialRewriteConfig { enabled: true, max_backspace: 12, window_ms: 0 }
}

#[test]
fn clipboard_pending_buffer_appends_without_overwrite() {
    let mut pending = String::new();
    assert_eq!(
        append_to_pending_clipboard(&mut pending, "hello world"),
        "hello world"
    );
    assert_eq!(
        append_to_pending_clipboard(&mut pending, "new chunk"),
        "hello world new chunk"
    );
}

#[test]
fn clipboard_pending_buffer_keeps_chinese_contiguous() {
    let mut pending = "你好".to_string();
    assert_eq!(
        append_to_pending_clipboard(&mut pending, "世界"),
        "你好世界"
    );
}

#[test]
fn clipboard_pending_buffer_ignores_empty_segment() {
    let mut pending = "existing".to_string();
    assert_eq!(append_to_pending_clipboard(&mut pending, "   "), "existing");
}

#[test]
fn clipboard_pending_buffer_skips_space_after_punctuation() {
    let mut pending = "sentence done.".to_string();
    assert_eq!(
        append_to_pending_clipboard(&mut pending, "next part"),
        "sentence done.next part"
    );
}

#[test]
fn partial_rewrite_helpers_compute_expected_suffix() {
    let before = "modern test";
    let after = "model test";
    let prefix = common_prefix_char_count(before, after);
    assert_eq!(prefix, 4);
    assert_eq!(suffix_from_char_index(after, prefix), "l test");
}

#[test]
fn extending_partials_only_append() {
    let mut tracker = LivePartialTracker::default();
    let cfg = rewrite_config();
    let mut emitted: Vec<String> = Vec::new();

    for partial in ["he", "hel", "hello"] {
        let plan = plan_partial_injection(&mut tracker, partial, 1_000, &cfg)
            .expect("an extension should yield a plan");
        match &plan {
            PartialInjectionPlan::Append { delta, .. } => emitted.push(delta.clone()),
            PartialInjectionPlan::Rewrite { .. } => panic!("extension must not backspace"),
        }
        apply_partial_success(&mut tracker, plan);
    }

    assert_eq!(emitted, vec!["he", "l", "lo"]);
    assert_eq!(tracker.injected_text, "hello");
    assert_eq!(tracker.mode, TranscriptInjectionMode::RealtimeCursor);
}

#[test]
fn revised_partial_rewrites_the_tail() {
    let mut tracker = LivePartialTracker::default();
    tracker.injected_text = "modern test".to_string();
    let cfg = rewrite_config();

    let plan = plan_partial_injection(&mut tracker, "model test", 2_000, &cfg)
        .expect("a small revision should rewrite");
    match &plan {
        PartialInjectionPlan::Rewrite { backspace_count, insert_text, next_injected_text } => {
            assert_eq!(*backspace_count, 7);
            assert_eq!(insert_text, "l test");
            assert_eq!(next_injected_text, "model test");
        }
        PartialInjectionPlan::Append { .. } => panic!("a revision must not plain-append"),
    }
    assert_eq!(tracker.last_rewrite_at_ms, 2_000);
    apply_partial_success(&mut tracker, plan);
    assert_eq!(tracker.injected_text, "model test");
}

#[test]
fn oversized_revision_disables_until_commit() {
    let mut tracker = LivePartialTracker::default();
    tracker.injected_text = "a very long sentence that diverges".to_string();
    let cfg = rewrite_config();

    let plan = plan_partial_injection(&mut tracker, "b completely different", 2_000, &cfg);
    assert!(plan.is_none());
    assert!(tracker.disabled_until_commit);

    let again = plan_partial_injection(&mut tracker, "b completely different more", 2_100, &cfg);
    assert!(again.is_none());
}

#[test]
fn rewrite_window_suppresses_rapid_rewrites() {
    let mut tracker = LivePartialTracker::default();
    tracker.injected_text = "modern test".to_string();
    tracker.last_rewrite_at_ms = 1_950;
    let cfg = PartialRewriteConfig { enabled: true, max_backspace: 12, window_ms: 140 };

    let plan = plan_partial_injection(&mut tracker, "model test", 2_000, &cfg);
    assert!(plan.is_none());
    assert!(!tracker.disabled_until_commit);

    let later = plan_partial_injection(&mut tracker, "model test", 2_200, &cfg);
    assert!(later.is_some());
}

#[test]
fn disabled_rewrite_config_stands_down_on_divergence() {
    let mut tracker = LivePartialTracker::default();
    tracker.injected_text = "modern test".to_string();
    let cfg = PartialRewriteConfig { enabled: false, max_backspace: 12, window_ms: 0 };

    let plan = plan_partial_injection(&mut tracker, "model test", 2_000, &cfg);
    assert!(plan.is_none());
    assert!(tracker.disabled_until_commit);
}

#[test]
fn clipboard_only_mode_never_plans_keystrokes() {
    let mut tracker = LivePartialTracker::default();
    tracker.mode = TranscriptInjectionMode::ClipboardOnly;
    let cfg = rewrite_config();

    assert!(plan_partial_injection(&mut tracker, "hello", 1_000, &cfg).is_none());
    tracker.injected_text = "hel".to_string();
    assert!(plan_partial_injection(&mut tracker, "hello", 1_100, &cfg).is_none());
}

#[test]
fn failed_injection_falls_back_to_clipboard() {
    let mut tracker = LivePartialTracker::default();
    apply_partial_failure(&mut tracker);
    assert!(tracker.disabled_until_commit);
    assert_eq!(tracker.mode, TranscriptInjectionMode::ClipboardOnly);

    let mut live = LivePartialTracker::default();
    live.mode = TranscriptInjectionMode::RealtimeCursor;
    apply_partial_failure(&mut live);
    assert_eq!(live.mode, TranscriptInjectionMode::RealtimeCursor);
}

#[test]
fn resets_keep_what_they_must() {
    let mut tracker = LivePartialTracker::default();
    tracker.injected_text = "text".to_string();
    tracker.disabled_until_commit = true;
    tracker.mode = TranscriptInjectionMode::RealtimeCursor;
    tracker.pending_clipboard_text = "kept".to_string();
    tracker.last_rewrite_at_ms = 99;

    tracker.reset_after_commit();
    assert_eq!(tracker.injected_text, "");
    assert!(!tracker.disabled_until_commit);
    assert_eq!(tracker.mode, TranscriptInjectionMode::RealtimeCursor);
    assert_eq!(tracker.pending_clipboard_text, "kept");
    assert_eq!(tracker.last_rewrite_at_ms, 0);

    tracker.mode = TranscriptInjectionMode::ClipboardOnly;
    tracker.reset_for_session();
    assert_eq!(tracker.mode, TranscriptInjectionMode::Undetermined);
    assert_eq!(tracker.pending_clipboard_text, "kept");
}
