//! The event dispatcher: one service event in, one set of host actions out.
//!
//! This is the decision core of the event loop. The host hands it the
//! event, the session tracker and queue, the wall clock and the current
//! configuration; it applies the staleness and confidence gates, reconciles
//! partial and committed text, and says exactly what the host must emit,
//! write or inject.

use vstd::prelude::*;

use crate::commit::{
    commit_is_stale, resolve_commit, should_drop_low_confidence_committed, spec_after_commit_reset,
    spec_commit_goes_to_clipboard, spec_enqueue_drop_count, spec_enqueued_queue, CommittedQueue,
    CommittedTranscript, MAX_COMMIT_INACTIVE_MS, MAX_PARTIAL_INACTIVE_MS,
    MIN_COMMITTED_CONFIDENCE_MILLI, partial_is_stale,
};
use crate::network::ScribeEvent;
use crate::reconcile::{
    plan_partial_injection, spec_plan_transition, LivePartialTracker, PartialInjectionPlan,
    PartialRewriteConfig, TranscriptInjectionMode, spec_append_pending,
};
use crate::text::spec_trim;
use crate::transcript::{
    append_terminal_punctuation, normalize_transcript_text, spec_append_terminal_punctuation,
    spec_normalize_transcript, spec_resolve_committed_punctuation_delta,
};
use crate::util::spec_sat_sub;

verus! {

/// Everything the host loop must do after one event is dispatched.
pub struct DispatchOutcome {
    pub state_label: Option<String>,
    pub error_message: Option<String>,
    pub session_started: Option<String>,
    pub partial_text_event: Option<String>,
    pub partial_plan: Option<PartialInjectionPlan>,
    pub committed_text_event: Option<String>,
    pub clipboard_text: Option<String>,
    pub enqueued: bool,
    pub queue_dropped: u64,
}

/// An error event's surfaced text: the message, else the secondary error
/// field, else the given fallback.
pub open spec fn spec_error_fallback(
    error_message: Seq<char>,
    error_field: Seq<char>,
    fallback: Seq<char>,
) -> Seq<char> {
    if spec_trim(error_message).len() > 0 {
        error_message
    } else if spec_trim(error_field).len() > 0 {
        error_field
    } else {
        fallback
    }
}

/// A committed event passes the gates: local voice activity is recent, and
/// the confidence is finite and either unstated (zero) or at least 0.10.
pub open spec fn spec_commit_accepted(
    now_ms: u64,
    last_voice_activity_ms: u64,
    confidence_milli: Option<u32>,
) -> bool {
    &&& !(last_voice_activity_ms == 0 || spec_sat_sub(now_ms, last_voice_activity_ms)
        > MAX_COMMIT_INACTIVE_MS)
    &&& match confidence_milli {
        Some(c) => !(0 < c && c < MIN_COMMITTED_CONFIDENCE_MILLI),
        None => false,
    }
}

/// A partial event passes the staleness gate.
pub open spec fn spec_partial_fresh(now_ms: u64, last_voice_activity_ms: u64) -> bool {
    !(last_voice_activity_ms == 0 || spec_sat_sub(now_ms, last_voice_activity_ms)
        > MAX_PARTIAL_INACTIVE_MS)
}

/// Nothing was asked of the host beyond what the clauses name.
pub open spec fn spec_no_injection_outcome(outcome: DispatchOutcome) -> bool {
    &&& outcome.partial_text_event is None
    &&& outcome.partial_plan is None
    &&& outcome.committed_text_event is None
    &&& outcome.clipboard_text is None
    &&& !outcome.enqueued
    &&& outcome.queue_dropped == 0
}

fn inert_outcome() -> (r: DispatchOutcome)
    ensures
        spec_no_injection_outcome(r),
        r.state_label is None,
        r.error_message is None,
        r.session_started is None,
{
    DispatchOutcome {
        state_label: None,
        error_message: None,
        session_started: None,
        partial_text_event: None,
        partial_plan: None,
        committed_text_event: None,
        clipboard_text: None,
        enqueued: false,
        queue_dropped: 0,
    }
}

/// Routes one service event, applying the dispatch rules: session starts
/// and errors only surface to the host; partials are normalized, gated on
/// recent voice activity and a usable cursor, and planned as minimal edits;
/// commits are gated on staleness and confidence, given terminal
/// punctuation, resolved against the tracker, and queued for injection.
#[verifier::rlimit(100)]
#[verifier::spinoff_prover]
pub fn dispatch_scribe_event(
    tracker: &mut LivePartialTracker,
    queue: &mut CommittedQueue,
    event: ScribeEvent,
    language_code: &str,
    cursor_available: bool,
    now_ms: u64,
    last_voice_activity_ms: u64,
    cfg: &PartialRewriteConfig,
) -> (outcome: DispatchOutcome)
    requires
        old(queue).wf(),
    ensures
        final(queue).wf(),
        ({
            let tr0 = *old(tracker);
            let tr1 = *final(tracker);
            let q0 = old(queue)@;
            let q1 = final(queue)@;
            match event {
                ScribeEvent::SessionStarted { session_id } => {
                    &&& tr1 == tr0
                    &&& q1 == q0
                    &&& spec_no_injection_outcome(outcome)
                    &&& match outcome.state_label {
                        Some(s) => s@ == "Listening"@,
                        None => false,
                    }
                    &&& match outcome.session_started {
                        Some(s) => s@ == session_id@,
                        None => false,
                    }
                    &&& outcome.error_message is None
                },
                ScribeEvent::PartialTranscript { text, created_at_ms } => {
                    let normalized = spec_normalize_transcript(text@, language_code@);
                    &&& q1 == q0
                    &&& outcome.state_label is None
                    &&& outcome.error_message is None
                    &&& outcome.session_started is None
                    &&& outcome.committed_text_event is None
                    &&& outcome.clipboard_text is None
                    &&& !outcome.enqueued
                    &&& outcome.queue_dropped == 0
                    &&& match outcome.partial_text_event {
                        Some(s) => s@ == normalized,
                        None => false,
                    }
                    &&& (!cursor_available ==> {
                        &&& tr1.mode is ClipboardOnly
                        &&& tr1.injected_text == tr0.injected_text
                        &&& tr1.disabled_until_commit == tr0.disabled_until_commit
                        &&& tr1.pending_clipboard_text == tr0.pending_clipboard_text
                        &&& tr1.last_rewrite_at_ms == tr0.last_rewrite_at_ms
                        &&& outcome.partial_plan is None
                    })
                    &&& (cursor_available && !spec_partial_fresh(now_ms, last_voice_activity_ms)
                        ==> tr1 == tr0 && outcome.partial_plan is None)
                    &&& (cursor_available && spec_partial_fresh(now_ms, last_voice_activity_ms)
                        ==> spec_plan_transition(
                        tr0,
                        tr1,
                        normalized,
                        now_ms,
                        *cfg,
                        outcome.partial_plan,
                    ))
                },
                ScribeEvent::CommittedTranscript { text, confidence_milli, created_at_ms } => {
                    let normalized = spec_normalize_transcript(text@, language_code@);
                    let committed = spec_append_terminal_punctuation(normalized);
                    let accepted = spec_commit_accepted(
                        now_ms,
                        last_voice_activity_ms,
                        confidence_milli,
                    );
                    &&& outcome.state_label is None
                    &&& outcome.error_message is None
                    &&& outcome.session_started is None
                    &&& outcome.partial_text_event is None
                    &&& outcome.partial_plan is None
                    &&& (!accepted ==> tr1 == tr0 && q1 == q0 && spec_no_injection_outcome(
                        outcome,
                    ))
                    &&& (accepted && spec_trim(committed).len() == 0 ==> tr1 == tr0 && q1 == q0
                        && spec_no_injection_outcome(outcome))
                    &&& (accepted && spec_trim(committed).len() > 0 ==> {
                        &&& match outcome.committed_text_event {
                            Some(s) => s@ == committed,
                            None => false,
                        }
                        &&& spec_after_commit_reset(tr0, tr1)
                        &&& (spec_commit_goes_to_clipboard(tr0) ==> {
                            &&& tr1.pending_clipboard_text@ == spec_append_pending(
                                tr0.pending_clipboard_text@,
                                committed,
                            )
                            &&& match outcome.clipboard_text {
                                Some(p) => p@ == tr1.pending_clipboard_text@,
                                None => false,
                            }
                            &&& !outcome.enqueued
                            &&& outcome.queue_dropped == 0
                            &&& q1 == q0
                        })
                        &&& (!spec_commit_goes_to_clipboard(tr0) ==> {
                            let delta = spec_resolve_committed_punctuation_delta(
                                committed,
                                tr0.injected_text@,
                            );
                            &&& tr1.pending_clipboard_text == tr0.pending_clipboard_text
                            &&& outcome.clipboard_text is None
                            &&& (spec_trim(delta).len() > 0 ==> {
                                &&& outcome.enqueued
                                &&& outcome.queue_dropped == spec_enqueue_drop_count(q0)
                                &&& q1.len() > 0
                                &&& q1.last().text@ == delta
                                &&& q1.last().confidence_milli == confidence_milli->0
                                &&& q1.last().created_at_ms == created_at_ms
                                &&& q1 == spec_enqueued_queue(q0, q1.last())
                            })
                            &&& (spec_trim(delta).len() == 0 ==> !outcome.enqueued
                                && outcome.queue_dropped == 0 && q1 == q0)
                        })
                    })
                },
                ScribeEvent::InputError { error_message } => {
                    &&& tr1 == tr0
                    &&& q1 == q0
                    &&& spec_no_injection_outcome(outcome)
                    &&& outcome.session_started is None
                    &&& match outcome.state_label {
                        Some(s) => s@ == "Error"@,
                        None => false,
                    }
                    &&& match outcome.error_message {
                        Some(s) => s@ == error_message@,
                        None => false,
                    }
                },
                ScribeEvent::Error { error_message, error } => {
                    &&& tr1 == tr0
                    &&& q1 == q0
                    &&& spec_no_injection_outcome(outcome)
                    &&& outcome.session_started is None
                    &&& match outcome.state_label {
                        Some(s) => s@ == "Error"@,
                        None => false,
                    }
                    &&& match outcome.error_message {
                        Some(s) => s@ == spec_error_fallback(
                            error_message@,
                            error@,
                            "unknown scribe error"@,
                        ),
                        None => false,
                    }
                },
                ScribeEvent::AuthError { error_message, error } => {
                    &&& tr1 == tr0
                    &&& q1 == q0
                    &&& spec_no_injection_outcome(outcome)
                    &&& outcome.session_started is None
                    &&& match outcome.state_label {
                        Some(s) => s@ == "Error"@,
                        None => false,
                    }
                    &&& match outcome.error_message {
                        Some(s) => s@ == spec_error_fallback(
                            error_message@,
                            error@,
                            "authentication failed"@,
                        ),
                        None => false,
                    }
                },
                ScribeEvent::Unknown => {
                    &&& tr1 == tr0
                    &&& q1 == q0
                    &&& spec_no_injection_outcome(outcome)
                    &&& outcome.state_label is None
                    &&& outcome.error_message is None
                    &&& outcome.session_started is None
                },
            }
        }),
{
    match event {
        ScribeEvent::SessionStarted { session_id } => {
            let mut outcome = inert_outcome();
            outcome.state_label = Some(String::from_str("Listening"));
            outcome.session_started = Some(session_id);
            outcome
        },
        ScribeEvent::PartialTranscript { text, created_at_ms: _ } => {
            let normalized = normalize_transcript_text(text.as_str(), language_code);
            let mut outcome = inert_outcome();
            outcome.partial_text_event = Some(normalized.clone());
            if !cursor_available {
                tracker.mode = TranscriptInjectionMode::ClipboardOnly;
                return outcome;
            }
            if partial_is_stale(now_ms, last_voice_activity_ms) {
                return outcome;
            }
            outcome.partial_plan = plan_partial_injection(tracker, normalized.as_str(), now_ms, cfg);
            outcome
        },
        ScribeEvent::CommittedTranscript { text, confidence_milli, created_at_ms } => {
            let mut outcome = inert_outcome();
            if commit_is_stale(now_ms, last_voice_activity_ms) {
                return outcome;
            }
            let confidence = match confidence_milli {
                Some(c) => c,
                None => {
                    return outcome;
                },
            };
            if should_drop_low_confidence_committed(confidence) {
                return outcome;
            }
            let normalized = normalize_transcript_text(text.as_str(), language_code);
            let committed = append_terminal_punctuation(normalized.as_str());
            let committed_trimmed = crate::text::trim_of(committed.as_str());
            if committed_trimmed.as_str().unicode_len() == 0 {
                return outcome;
            }
            let resolution = resolve_commit(tracker, committed.as_str());
            outcome.clipboard_text = resolution.clipboard_text;
            if let Some(delta) = resolution.injection_text {
                let item = CommittedTranscript {
                    text: delta,
                    confidence_milli: confidence,
                    created_at_ms,
                };
                outcome.queue_dropped = queue.enqueue(item);
                outcome.enqueued = true;
            }
            outcome.committed_text_event = Some(committed);
            outcome
        },
        ScribeEvent::InputError { error_message } => {
            let mut outcome = inert_outcome();
            outcome.state_label = Some(String::from_str("Error"));
            outcome.error_message = Some(error_message);
            outcome
        },
        ScribeEvent::Error { error_message, error } => {
            let mut outcome = inert_outcome();
            outcome.state_label = Some(String::from_str("Error"));
            outcome.error_message = Some(
                pick_error_text(error_message, error, "unknown scribe error"),
            );
            outcome
        },
        ScribeEvent::AuthError { error_message, error } => {
            let mut outcome = inert_outcome();
            outcome.state_label = Some(String::from_str("Error"));
            outcome.error_message = Some(
                pick_error_text(error_message, error, "authentication failed"),
            );
            outcome
        },
        ScribeEvent::Unknown => inert_outcome(),
    }
}

/// Picks the error text to surface: message, else secondary field, else the
/// fallback.
fn pick_error_text(error_message: String, error_field: String, fallback: &str) -> (r: String)
    ensures
        r@ == spec_error_fallback(error_message@, error_field@, fallback@),
{
    let em_trimmed = crate::text::trim_of(error_message.as_str());
    if em_trimmed.as_str().unicode_len() > 0 {
        return error_message;
    }
    let ef_trimmed = crate::text::trim_of(error_field.as_str());
    if ef_trimmed.as_str().unicode_len() > 0 {
        return error_field;
    }
    String::from_str(fallback)
}

} // verus!
