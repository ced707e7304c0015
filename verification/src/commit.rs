//! Committed transcripts: gates, commit resolution and the bounded queue.

use std::collections::VecDeque;
use vstd::prelude::*;

use crate::reconcile::{spec_append_pending, append_to_pending_clipboard, LivePartialTracker};
use crate::transcript::{resolve_committed_punctuation_delta, spec_resolve_committed_punctuation_delta};
use crate::text::trim_of;
use crate::text::spec_trim;
use crate::util::spec_sat_sub;

verus! {

/// A finalized transcript segment queued for injection.
///
/// Confidence is carried in thousandths of the service's unit value, so the
/// drop threshold of 0.10 reads as 100.
#[derive(Debug, Clone)]
pub struct CommittedTranscript {
    pub text: String,
    pub confidence_milli: u32,
    pub created_at_ms: u64,
}

/// Most entries the injection queue holds at once.
pub const COMMITTED_QUEUE_CAPACITY: usize = 128;

/// Commits older than this, against local voice activity, are dropped.
pub const MAX_COMMIT_INACTIVE_MS: u64 = 6000;

/// Partials older than this, against local voice activity, are dropped.
pub const MAX_PARTIAL_INACTIVE_MS: u64 = 2000;

/// Commits with a confidence under this (in thousandths) are dropped.
pub const MIN_COMMITTED_CONFIDENCE_MILLI: u32 = 100;

/// The FIFO queue of committed transcripts awaiting injection. It never
/// holds more than `COMMITTED_QUEUE_CAPACITY` entries: on overflow the
/// oldest entry is dropped and counted.
pub struct CommittedQueue {
    items: VecDeque<CommittedTranscript>,
}

impl View for CommittedQueue {
    type V = Seq<CommittedTranscript>;

    closed spec fn view(&self) -> Seq<CommittedTranscript> {
        self.items@
    }
}

impl CommittedQueue {
    /// The queue is within its capacity.
    pub closed spec fn wf(&self) -> bool {
        self.items@.len() <= COMMITTED_QUEUE_CAPACITY
    }

    pub fn new() -> (r: Self)
        ensures
            r@ == Seq::<CommittedTranscript>::empty(),
            r.wf(),
    {
        CommittedQueue { items: VecDeque::new() }
    }

    pub fn len(&self) -> (r: usize)
        ensures
            r == self@.len(),
    {
        self.items.len()
    }

    /// Appends a commit; on overflow the oldest entry leaves and is counted.
    pub fn enqueue(&mut self, transcript: CommittedTranscript) -> (dropped: u64)
        requires
            old(self).wf(),
        ensures
            final(self).wf(),
            final(self)@.len() <= COMMITTED_QUEUE_CAPACITY,
            final(self)@ == spec_enqueued_queue(old(self)@, transcript),
            final(self)@.len() > 0,
            final(self)@.last() == transcript,
            dropped == spec_enqueue_drop_count(old(self)@),
    {
        self.items.push_back(transcript);
        if self.items.len() > COMMITTED_QUEUE_CAPACITY {
            self.items.pop_front();
            proof {
                assert(self.items@ =~= old(self)@.push(transcript).drop_first());
            }
            1
        } else {
            0
        }
    }

    /// Removes and returns the oldest queued commit, if any.
    pub fn dequeue(&mut self) -> (r: Option<CommittedTranscript>)
        requires
            old(self).wf(),
        ensures
            final(self).wf(),
            old(self)@.len() == 0 ==> r is None && final(self)@ == old(self)@,
            old(self)@.len() > 0 ==> match r {
                Some(t) => t == old(self)@[0] && final(self)@ == old(self)@.drop_first(),
                None => false,
            },
    {
        self.items.pop_front()
    }
}

/// The queue never exceeds its capacity of 128 entries.
pub proof fn lemma_committed_queue_bounded(q: &CommittedQueue)
    requires
        q.wf(),
    ensures
        q@.len() <= 128,
{
}

/// A commit whose confidence is positive but under 0.10 (here: under 100
/// thousandths) is dropped; zero means "not provided" and is accepted.
pub fn should_drop_low_confidence_committed(confidence_milli: u32) -> (r: bool)
    ensures
        r == (0 < confidence_milli && confidence_milli < MIN_COMMITTED_CONFIDENCE_MILLI),
{
    if confidence_milli == 0 {
        return false;
    }
    confidence_milli < MIN_COMMITTED_CONFIDENCE_MILLI
}

/// A commit is stale when no voice was heard yet, or none for over 6 s.
pub fn commit_is_stale(now_ms: u64, last_voice_activity_ms: u64) -> (r: bool)
    ensures
        r == (last_voice_activity_ms == 0 || spec_sat_sub(now_ms, last_voice_activity_ms)
            > MAX_COMMIT_INACTIVE_MS),
{
    if last_voice_activity_ms == 0 {
        return true;
    }
    crate::util::sat_sub(now_ms, last_voice_activity_ms) > MAX_COMMIT_INACTIVE_MS
}

/// A partial is stale when no voice was heard yet, or none for over 2 s.
pub fn partial_is_stale(now_ms: u64, last_voice_activity_ms: u64) -> (r: bool)
    ensures
        r == (last_voice_activity_ms == 0 || spec_sat_sub(now_ms, last_voice_activity_ms)
            > MAX_PARTIAL_INACTIVE_MS),
{
    if last_voice_activity_ms == 0 {
        return true;
    }
    crate::util::sat_sub(now_ms, last_voice_activity_ms) > MAX_PARTIAL_INACTIVE_MS
}

/// The voice-activity timestamp after a chunk is inspected.
pub open spec fn spec_updated_voice_activity(last_ms: u64, now_ms: u64, voice: bool) -> u64 {
    if voice {
        now_ms
    } else {
        last_ms
    }
}

/// Stamps the voice-activity clock when a chunk sounds like speech.
pub fn update_voice_activity(last_voice_activity_ms: &mut u64, now_ms: u64, voice_detected: bool)
    ensures
        *final(last_voice_activity_ms) == spec_updated_voice_activity(
            *old(last_voice_activity_ms),
            now_ms,
            voice_detected,
        ),
{
    if voice_detected {
        *last_voice_activity_ms = now_ms;
    }
}

/// With a clock that does not step backwards, the voice-activity timestamp
/// is monotonically non-decreasing within a session.
pub proof fn lemma_voice_activity_monotonic(last_ms: u64, now_ms: u64, voice: bool)
    requires
        last_ms <= now_ms,
    ensures
        spec_updated_voice_activity(last_ms, now_ms, voice) >= last_ms,
{
}

/// A `created_at_ms` is a believable epoch timestamp when it is over 10^12.
pub fn is_plausible_epoch_ms(created_at_ms: u64) -> (r: bool)
    ensures
        r == (created_at_ms > 1000000000000),
{
    created_at_ms > 1000000000000
}

/// The queue contents after an enqueue: appended, with the oldest entry
/// dropped when the queue was full.
pub open spec fn spec_enqueued_queue(
    q0: Seq<CommittedTranscript>,
    t: CommittedTranscript,
) -> Seq<CommittedTranscript> {
    if q0.len() < COMMITTED_QUEUE_CAPACITY {
        q0.push(t)
    } else {
        q0.push(t).drop_first()
    }
}

/// How many entries an enqueue drops.
pub open spec fn spec_enqueue_drop_count(q0: Seq<CommittedTranscript>) -> u64 {
    if q0.len() < COMMITTED_QUEUE_CAPACITY {
        0u64
    } else {
        1u64
    }
}

/// What a resolved commit asks of the outside world: at most one of a full
/// clipboard write or a keystroke injection.
pub struct CommitOutcome {
    pub clipboard_text: Option<String>,
    pub injection_text: Option<String>,
}

/// The tracker was reset after a commit: tail settled, mode kept.
pub open spec fn spec_after_commit_reset(
    tr0: LivePartialTracker,
    tr1: LivePartialTracker,
) -> bool {
    &&& tr1.injected_text@.len() == 0
    &&& !tr1.disabled_until_commit
    &&& tr1.last_rewrite_at_ms == 0
    &&& tr1.mode == tr0.mode
}

/// The commit goes to the clipboard buffer rather than to keystrokes:
/// clipboard-only mode, or nothing is on screen from partials.
pub open spec fn spec_commit_goes_to_clipboard(tr: LivePartialTracker) -> bool {
    tr.mode is ClipboardOnly || spec_trim(tr.injected_text@).len() == 0
}

/// The commit resolution rule, as a relation between the tracker before
/// (`tr0`) and after (`tr1`), the committed text, and the requested actions.
pub open spec fn spec_commit_transition(
    tr0: LivePartialTracker,
    tr1: LivePartialTracker,
    committed_text: Seq<char>,
    outcome: CommitOutcome,
) -> bool {
    ({
        let c = spec_trim(committed_text);
        &&& (c.len() == 0 ==> tr1 == tr0 && outcome.clipboard_text is None
            && outcome.injection_text is None)
            &&& (c.len() > 0 && spec_commit_goes_to_clipboard(tr0) ==> {
                &&& spec_after_commit_reset(tr0, tr1)
                &&& tr1.pending_clipboard_text@ == spec_append_pending(
                    tr0.pending_clipboard_text@,
                    committed_text,
                )
                &&& match outcome.clipboard_text {
                    Some(p) => p@ == tr1.pending_clipboard_text@,
                    None => false,
                }
                &&& outcome.injection_text is None
            })
            &&& (c.len() > 0 && !spec_commit_goes_to_clipboard(tr0) ==> {
                let delta = spec_resolve_committed_punctuation_delta(
                    committed_text,
                    tr0.injected_text@,
                );
                &&& spec_after_commit_reset(tr0, tr1)
                &&& tr1.pending_clipboard_text == tr0.pending_clipboard_text
                &&& outcome.clipboard_text is None
                &&& (spec_trim(delta).len() > 0 ==> match outcome.injection_text {
                    Some(d) => d@ == delta,
                    None => false,
                })
                &&& (spec_trim(delta).len() == 0 ==> outcome.injection_text is None)
            })
    })
}

/// Resolves a committed transcript against the tracker: in clipboard mode
/// (or with nothing injected) the text joins the clipboard buffer; otherwise
/// only the punctuation delta owed to the cursor is injected. The tracker is
/// reset after either path.
pub fn resolve_commit(tracker: &mut LivePartialTracker, committed_text: &str) -> (outcome:
    CommitOutcome)
    ensures
        spec_commit_transition(*old(tracker), *final(tracker), committed_text@, outcome),
{
    let c = trim_of(committed_text);
    if c.as_str().unicode_len() == 0 {
        return CommitOutcome { clipboard_text: None, injection_text: None };
    }
    let clipboard_mode = matches!(tracker.mode, crate::reconcile::TranscriptInjectionMode::ClipboardOnly);
    let injected_trimmed = trim_of(tracker.injected_text.as_str());
    if clipboard_mode || injected_trimmed.as_str().unicode_len() == 0 {
        let pending = append_to_pending_clipboard(
            &mut tracker.pending_clipboard_text,
            committed_text,
        );
        tracker.reset_after_commit();
        CommitOutcome { clipboard_text: Some(pending), injection_text: None }
    } else {
        let delta = resolve_committed_punctuation_delta(
            committed_text,
            tracker.injected_text.as_str(),
        );
        tracker.reset_after_commit();
        let delta_trimmed = trim_of(delta.as_str());
        let injection_text = if delta_trimmed.as_str().unicode_len() > 0 {
            Some(delta)
        } else {
            None
        };
        CommitOutcome { clipboard_text: None, injection_text }
    }
}

/// In clipboard-only mode a commit always takes the clipboard path, so — by
/// the contract of `resolve_commit` — no keystroke injection is requested.
pub proof fn lemma_clipboard_only_commit_never_injects(tr: LivePartialTracker)
    requires
        tr.mode is ClipboardOnly,
    ensures
        spec_commit_goes_to_clipboard(tr),
{
}

} // verus!
