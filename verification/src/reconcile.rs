//! Partial-transcript reconciliation: minimal edits against the live cursor.
//!
//! A partial transcript may extend or revise what was already injected. The
//! planner below decides, per the session tracker, whether to append, to
//! rewrite a short tail with backspaces, or to stand down until the next
//! commit.

use vstd::prelude::*;

use crate::text::{
    common_prefix_char_count, is_cjk, is_join_boundary_punctuation, last_non_whitespace, push_char,
    spec_common_prefix_len, spec_is_cjk, spec_is_join_boundary_punctuation, spec_is_prefix,
    spec_last_non_whitespace, spec_trim, strip_prefix_chars, suffix_from_char_index,
    trim_of, lemma_common_prefix_props, lemma_trim_head_non_whitespace,
};
use crate::util::spec_sat_sub;

verus! {

/// How committed and partial text reaches the foreign application.
#[derive(Debug, Clone, Copy, PartialEq, Eq, Structural)]
pub enum TranscriptInjectionMode {
    Undetermined,
    RealtimeCursor,
    ClipboardOnly,
}

impl Default for TranscriptInjectionMode {
    fn default() -> (r: Self)
        ensures
            r is Undetermined,
    {
        TranscriptInjectionMode::Undetermined
    }
}

/// Per-session state of the reconciliation state machine.
pub struct LivePartialTracker {
    pub injected_text: String,
    pub disabled_until_commit: bool,
    pub mode: TranscriptInjectionMode,
    pub pending_clipboard_text: String,
    pub last_rewrite_at_ms: u64,
}

impl Default for LivePartialTracker {
    fn default() -> (r: Self)
        ensures
            r.injected_text@ == Seq::<char>::empty(),
            !r.disabled_until_commit,
            r.mode is Undetermined,
            r.pending_clipboard_text@ == Seq::<char>::empty(),
            r.last_rewrite_at_ms == 0,
    {
        LivePartialTracker {
            injected_text: String::new(),
            disabled_until_commit: false,
            mode: TranscriptInjectionMode::Undetermined,
            pending_clipboard_text: String::new(),
            last_rewrite_at_ms: 0,
        }
    }
}

impl LivePartialTracker {
    /// Start of a recording: everything is reset but the clipboard buffer.
    pub fn reset_for_session(&mut self)
        ensures
            final(self).injected_text@ == Seq::<char>::empty(),
            !final(self).disabled_until_commit,
            final(self).mode is Undetermined,
            final(self).last_rewrite_at_ms == 0,
            final(self).pending_clipboard_text == old(self).pending_clipboard_text,
    {
        self.injected_text = String::new();
        self.disabled_until_commit = false;
        self.mode = TranscriptInjectionMode::Undetermined;
        self.last_rewrite_at_ms = 0;
    }

    /// After a commit: the tail is settled, but mode and the clipboard
    /// buffer survive until the session ends.
    pub fn reset_after_commit(&mut self)
        ensures
            final(self).injected_text@ == Seq::<char>::empty(),
            !final(self).disabled_until_commit,
            final(self).last_rewrite_at_ms == 0,
            final(self).mode == old(self).mode,
            final(self).pending_clipboard_text == old(self).pending_clipboard_text,
    {
        self.injected_text = String::new();
        self.disabled_until_commit = false;
        self.last_rewrite_at_ms = 0;
    }
}

/// Runtime configuration of the rewrite path.
#[derive(Debug, Clone, Copy)]
pub struct PartialRewriteConfig {
    pub enabled: bool,
    pub max_backspace: usize,
    pub window_ms: u64,
}

/// The edit that moves the on-screen text to the new partial.
#[derive(Debug, Clone)]
pub enum PartialInjectionPlan {
    Append { delta: String, next_injected_text: String },
    Rewrite { backspace_count: usize, insert_text: String, next_injected_text: String },
}

/// The tracker refuses partial injection outright.
pub open spec fn spec_plan_blocked(tr: LivePartialTracker) -> bool {
    tr.mode is ClipboardOnly || tr.disabled_until_commit
}

/// The partial extends what is on screen: nothing yet, or a strict extension.
pub open spec fn spec_plan_is_extension(t: Seq<char>, p: Seq<char>) -> bool {
    t.len() == 0 || (spec_is_prefix(t, p) && p.len() > t.len())
}

/// The partial revises the on-screen text instead of extending it.
pub open spec fn spec_plan_diverges(t: Seq<char>, p: Seq<char>) -> bool {
    t.len() > 0 && !spec_is_prefix(t, p)
}

/// Backspaces a rewrite would need: on-screen length minus common prefix.
pub open spec fn spec_rewrite_backspaces(t: Seq<char>, p: Seq<char>) -> int {
    t.len() - spec_common_prefix_len(t, p)
}

/// A rewrite is suppressed because one happened within the window.
pub open spec fn spec_rewrite_window_blocked(
    tr: LivePartialTracker,
    now_ms: u64,
    cfg: PartialRewriteConfig,
) -> bool {
    cfg.window_ms > 0 && tr.last_rewrite_at_ms > 0 && spec_sat_sub(now_ms, tr.last_rewrite_at_ms)
        < cfg.window_ms
}

/// A diverging partial always needs at least one backspace.
pub proof fn lemma_diverging_needs_backspaces(t: Seq<char>, p: Seq<char>)
    requires
        spec_plan_diverges(t, p),
    ensures
        0 < spec_rewrite_backspaces(t, p) <= t.len(),
{
    lemma_common_prefix_props(t, p);
    let k = spec_common_prefix_len(t, p);
    if k == t.len() {
        assert(p.take(t.len() as int) =~= t);
        assert(spec_is_prefix(t, p));
    }
}

/// After a rewrite the tracker holds exactly the partial, which replaces a
/// suffix of the old text: the retained part is their common prefix.
pub proof fn lemma_rewrite_is_suffix_replacement(t: Seq<char>, p: Seq<char>)
    requires
        spec_plan_diverges(t, p),
    ensures
        0 <= spec_common_prefix_len(t, p) < t.len(),
        p =~= t.take(spec_common_prefix_len(t, p)) + p.skip(spec_common_prefix_len(t, p)),
{
    lemma_common_prefix_props(t, p);
    lemma_diverging_needs_backspaces(t, p);
    let k = spec_common_prefix_len(t, p);
    assert(p.take(k) =~= t.take(k));
    assert(p =~= p.take(k) + p.skip(k));
}

/// A partial that strictly extends the on-screen text never diverges, so —
/// by the contract of `plan_partial_injection` — it never yields backspaces.
pub proof fn lemma_extending_partial_never_backspaces(t: Seq<char>, p: Seq<char>)
    requires
        spec_is_prefix(t, p),
    ensures
        !spec_plan_diverges(t, p),
{
}

/// In clipboard-only mode the planner is blocked, so — by the contract of
/// `plan_partial_injection` — no keystroke plan is ever produced.
pub proof fn lemma_clipboard_only_never_plans(tr: LivePartialTracker)
    requires
        tr.mode is ClipboardOnly,
    ensures
        spec_plan_blocked(tr),
{
}

/// The planner changed nothing but setting `disabled_until_commit`.
pub open spec fn spec_only_disabled_set(tr0: LivePartialTracker, tr1: LivePartialTracker) -> bool {
    &&& tr1.disabled_until_commit
    &&& tr1.injected_text == tr0.injected_text
    &&& tr1.mode == tr0.mode
    &&& tr1.pending_clipboard_text == tr0.pending_clipboard_text
    &&& tr1.last_rewrite_at_ms == tr0.last_rewrite_at_ms
}

/// The planner changed nothing but stamping the rewrite time.
pub open spec fn spec_only_rewrite_stamped(
    tr0: LivePartialTracker,
    tr1: LivePartialTracker,
    now_ms: u64,
) -> bool {
    &&& tr1.last_rewrite_at_ms == now_ms
    &&& tr1.injected_text == tr0.injected_text
    &&& tr1.disabled_until_commit == tr0.disabled_until_commit
    &&& tr1.mode == tr0.mode
    &&& tr1.pending_clipboard_text == tr0.pending_clipboard_text
}

/// The full decision table of the partial planner, as a relation between
/// the tracker before (`tr0`) and after (`tr1`), the partial text, and the
/// produced plan.
pub open spec fn spec_plan_transition(
    tr0: LivePartialTracker,
    tr1: LivePartialTracker,
    partial: Seq<char>,
    now_ms: u64,
    cfg: PartialRewriteConfig,
    r: Option<PartialInjectionPlan>,
) -> bool {
    ({
        let p = spec_trim(partial);
        let t = tr0.injected_text@;
        &&& (p.len() == 0 ==> r is None && tr1 == tr0)
            &&& (p.len() > 0 && spec_plan_blocked(tr0) ==> r is None && tr1 == tr0)
            &&& (p.len() > 0 && !spec_plan_blocked(tr0) && spec_plan_is_extension(t, p) ==> tr1
                == tr0 && match r {
                Some(plan) => plan matches PartialInjectionPlan::Append { delta, next_injected_text }
                    && delta@ == p.skip(t.len() as int) && next_injected_text@ == p,
                None => false,
            })
            &&& (p.len() > 0 && !spec_plan_blocked(tr0) && t.len() > 0 && p == t ==> r is None
                && tr1 == tr0)
            &&& (p.len() > 0 && !spec_plan_blocked(tr0) && spec_plan_diverges(t, p) && !cfg.enabled
                ==> r is None && spec_only_disabled_set(tr0, tr1))
            &&& (p.len() > 0 && !spec_plan_blocked(tr0) && spec_plan_diverges(t, p) && cfg.enabled
                && spec_rewrite_backspaces(t, p) > cfg.max_backspace ==> r is None
                && spec_only_disabled_set(tr0, tr1))
            &&& (p.len() > 0 && !spec_plan_blocked(tr0) && spec_plan_diverges(t, p) && cfg.enabled
                && spec_rewrite_backspaces(t, p) <= cfg.max_backspace
                && spec_rewrite_window_blocked(tr0, now_ms, cfg) ==> r is None && tr1 == tr0)
            &&& (p.len() > 0 && !spec_plan_blocked(tr0) && spec_plan_diverges(t, p) && cfg.enabled
                && spec_rewrite_backspaces(t, p) <= cfg.max_backspace
                && !spec_rewrite_window_blocked(tr0, now_ms, cfg) ==> spec_only_rewrite_stamped(
                tr0,
                tr1,
                now_ms,
            ) && match r {
                Some(plan) => plan matches PartialInjectionPlan::Rewrite {
                    backspace_count,
                    insert_text,
                    next_injected_text,
                } && backspace_count as int == spec_rewrite_backspaces(t, p) && insert_text@
                    == p.skip(spec_common_prefix_len(t, p)) && next_injected_text@ == p,
                None => false,
            })
            &&& (match r {
                Some(plan) => plan is Rewrite ==> spec_plan_diverges(t, p),
                None => true,
            })
    })
}

/// Decides the edit for a new partial transcript, per the decision table:
/// blocked trackers and stale or empty partials do nothing; an extension is
/// appended; a revision is rewritten with at most `max_backspace` backspaces
/// and no more often than the window allows, else partial injection is
/// disabled until the next commit.
#[verifier::rlimit(30)]
pub fn plan_partial_injection(
    tracker: &mut LivePartialTracker,
    partial_text: &str,
    now_ms: u64,
    cfg: &PartialRewriteConfig,
) -> (r: Option<PartialInjectionPlan>)
    ensures
        spec_plan_transition(*old(tracker), *final(tracker), partial_text@, now_ms, *cfg, r),
{
    let normalized = trim_of(partial_text);
    if normalized.as_str().unicode_len() == 0 {
        return None;
    }
    if matches!(tracker.mode, TranscriptInjectionMode::ClipboardOnly) {
        return None;
    }
    if tracker.disabled_until_commit {
        return None;
    }
    let ghost t = tracker.injected_text@;
    let ghost p = normalized@;
    if tracker.injected_text.as_str().unicode_len() == 0 {
        proof {
            assert(t =~= Seq::<char>::empty());
            assert(p.skip(0int) =~= p);
        }
        return Some(
            PartialInjectionPlan::Append {
                delta: normalized.clone(),
                next_injected_text: normalized,
            },
        );
    }
    if let Some(delta) = strip_prefix_chars(normalized.as_str(), tracker.injected_text.as_str()) {
        if delta.as_str().unicode_len() == 0 {
            proof {
                assert(p =~= t + p.skip(t.len() as int));
                assert(p =~= t);
            }
            return None;
        }
        return Some(
            PartialInjectionPlan::Append { delta, next_injected_text: normalized },
        );
    }
    proof {
        if p == t {
            assert(p.take(t.len() as int) =~= t);
            assert(spec_is_prefix(t, p));
        }
    }
    if !cfg.enabled {
        tracker.disabled_until_commit = true;
        return None;
    }
    let common_prefix_chars = common_prefix_char_count(
        tracker.injected_text.as_str(),
        normalized.as_str(),
    );
    let previous_chars: usize = tracker.injected_text.as_str().unicode_len();
    proof {
        lemma_common_prefix_props(t, p);
    }
    let backspace_count: usize = previous_chars - common_prefix_chars;
    if backspace_count == 0 {
        proof {
            lemma_diverging_needs_backspaces(t, p);
        }
        return None;
    }
    if backspace_count > cfg.max_backspace {
        tracker.disabled_until_commit = true;
        return None;
    }
    if cfg.window_ms > 0 && tracker.last_rewrite_at_ms > 0 {
        let since_last: u64 = if now_ms >= tracker.last_rewrite_at_ms {
            now_ms - tracker.last_rewrite_at_ms
        } else {
            0
        };
        if since_last < cfg.window_ms {
            return None;
        }
    }
    tracker.last_rewrite_at_ms = now_ms;
    let insert_text = suffix_from_char_index(normalized.as_str(), common_prefix_chars);
    Some(
        PartialInjectionPlan::Rewrite {
            backspace_count,
            insert_text,
            next_injected_text: normalized,
        },
    )
}

/// Records a successfully injected plan: the tracker now believes the plan's
/// text is on screen, and the cursor is known to be live.
pub fn apply_partial_success(tracker: &mut LivePartialTracker, plan: PartialInjectionPlan)
    ensures
        old(tracker).disabled_until_commit ==> *final(tracker) == *old(tracker),
        !old(tracker).disabled_until_commit ==> {
            &&& final(tracker).injected_text == (match plan {
                PartialInjectionPlan::Append { next_injected_text, .. } => next_injected_text,
                PartialInjectionPlan::Rewrite { next_injected_text, .. } => next_injected_text,
            })
            &&& final(tracker).mode is RealtimeCursor
            &&& final(tracker).disabled_until_commit == old(tracker).disabled_until_commit
            &&& final(tracker).pending_clipboard_text == old(tracker).pending_clipboard_text
            &&& final(tracker).last_rewrite_at_ms == old(tracker).last_rewrite_at_ms
        },
{
    if !tracker.disabled_until_commit {
        tracker.injected_text = match plan {
            PartialInjectionPlan::Append { next_injected_text, .. } => next_injected_text,
            PartialInjectionPlan::Rewrite { next_injected_text, .. } => next_injected_text,
        };
        tracker.mode = TranscriptInjectionMode::RealtimeCursor;
    }
}

/// Records a failed injection: partial edits stop until the next commit, and
/// an undetermined session falls back to the clipboard.
pub fn apply_partial_failure(tracker: &mut LivePartialTracker)
    ensures
        final(tracker).disabled_until_commit,
        old(tracker).mode is Undetermined ==> final(tracker).mode is ClipboardOnly,
        !(old(tracker).mode is Undetermined) ==> final(tracker).mode == old(tracker).mode,
        final(tracker).injected_text == old(tracker).injected_text,
        final(tracker).pending_clipboard_text == old(tracker).pending_clipboard_text,
        final(tracker).last_rewrite_at_ms == old(tracker).last_rewrite_at_ms,
{
    tracker.disabled_until_commit = true;
    if matches!(tracker.mode, TranscriptInjectionMode::Undetermined) {
        tracker.mode = TranscriptInjectionMode::ClipboardOnly;
    }
}

/// The clipboard buffer and the new segment join without a space when either
/// side ends or begins in joining punctuation or CJK text.
pub open spec fn spec_needs_separator(pending: Seq<char>, seg: Seq<char>) -> bool {
    pending.len() > 0 && seg.len() > 0 && match spec_last_non_whitespace(pending) {
        Some(prev) => !spec_is_join_boundary_punctuation(prev)
            && !spec_is_join_boundary_punctuation(seg[0]) && !spec_is_cjk(prev) && !spec_is_cjk(
            seg[0],
        ),
        None => false,
    }
}

/// The clipboard buffer after a committed segment is appended.
pub open spec fn spec_append_pending(pending: Seq<char>, new_text: Seq<char>) -> Seq<char> {
    let seg = spec_trim(new_text);
    if seg.len() == 0 {
        pending
    } else if spec_needs_separator(pending, seg) {
        pending + seq![' '] + seg
    } else {
        pending + seg
    }
}

/// Appends a committed segment to the clipboard-mode buffer, inserting a
/// single space only between two Latin, non-punctuation neighbours; returns
/// the whole buffer.
pub fn append_to_pending_clipboard(pending: &mut String, new_text: &str) -> (r: String)
    ensures
        final(pending)@ == spec_append_pending(old(pending)@, new_text@),
        r@ == final(pending)@,
{
    let segment = trim_of(new_text);
    if segment.as_str().unicode_len() == 0 {
        proof {
            assert(pending@ =~= spec_append_pending(pending@, new_text@));
        }
        return pending.clone();
    }
    proof {
        lemma_trim_head_non_whitespace(new_text@);
    }
    if pending.as_str().unicode_len() > 0 {
        if let Some(previous) = last_non_whitespace(pending.as_str()) {
            let upcoming = segment.as_str().get_char(0);
            if !is_join_boundary_punctuation(previous) && !is_join_boundary_punctuation(upcoming)
                && !is_cjk(previous) && !is_cjk(upcoming) {
                push_char(pending, ' ');
                proof {
                    assert(old(pending)@.push(' ') =~= old(pending)@ + seq![' ']);
                }
            }
        }
    }
    pending.append(segment.as_str());
    pending.clone()
}

} // verus!
