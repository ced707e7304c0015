//! Transcript validation, normalization and punctuation rules.

use vstd::prelude::*;

use crate::text::{
    contains_cjk, is_closing_punctuation_wrapper, is_terminal_punctuation, push_char,
    spec_contains_cjk, spec_is_closing_punctuation_wrapper, spec_is_prefix,
    spec_is_terminal_punctuation, spec_is_whitespace, spec_trim, spec_trim_end, str_eq,
    strip_prefix_chars, suffix_from_char_index, trim_end_of, trim_of,
};

verus! {

/// Longest transcript, in characters, accepted for injection.
pub const MAX_TRANSCRIPT_LENGTH: usize = 10000;

pub const DEFAULT_INJECTION_THRESHOLD: usize = 10;

pub const DEFAULT_PARTIAL_REWRITE_ENABLED: bool = true;

pub const DEFAULT_PARTIAL_REWRITE_MAX_BACKSPACE: usize = 12;

pub const DEFAULT_PARTIAL_REWRITE_WINDOW_MS: u64 = 140;

pub const MIN_PARTIAL_REWRITE_MAX_BACKSPACE: usize = 0;

pub const MAX_PARTIAL_REWRITE_MAX_BACKSPACE: usize = 64;

pub const MIN_PARTIAL_REWRITE_WINDOW_MS: u64 = 0;

pub const MAX_PARTIAL_REWRITE_WINDOW_MS: u64 = 2000;

/// Why a transcript was rejected before injection.
#[derive(Debug, PartialEq, Eq, Structural, Clone, Copy)]
pub enum ValidationError {
    TooLong,
    MaliciousContent,
}

impl ValidationError {
    pub fn message(&self) -> (r: String)
        ensures
            self is TooLong ==> r@ == "text exceeds maximum length of 10000 characters"@,
            self is MaliciousContent ==> r@ == "text contains suspicious shell-like tokens"@,
    {
        match self {
            ValidationError::TooLong => String::from_str(
                "text exceeds maximum length of 10000 characters",
            ),
            ValidationError::MaliciousContent => String::from_str(
                "text contains suspicious shell-like tokens",
            ),
        }
    }
}

/// An error surfaced by the text-injection path.
#[derive(Debug)]
pub enum InputError {
    Initialization(String),
    Keyboard(String),
    Clipboard(String),
    Validation(ValidationError),
}

impl InputError {
    pub fn message(&self) -> (r: String)
        ensures
            match self {
                InputError::Initialization(m) => r@ == "failed to initialize input injector: "@
                    + m@,
                InputError::Keyboard(m) => r@ == "failed to simulate keyboard input: "@ + m@,
                InputError::Clipboard(m) => r@ == "clipboard operation failed: "@ + m@,
                InputError::Validation(e) => (e is TooLong ==> r@ == "invalid transcript: "@
                    + "text exceeds maximum length of 10000 characters"@) && (e
                    is MaliciousContent ==> r@ == "invalid transcript: "@
                    + "text contains suspicious shell-like tokens"@),
            },
    {
        match self {
            InputError::Initialization(m) => String::from_str(
                "failed to initialize input injector: ",
            ).concat(m.as_str()),
            InputError::Keyboard(m) => String::from_str("failed to simulate keyboard input: ")
                .concat(m.as_str()),
            InputError::Clipboard(m) => String::from_str("clipboard operation failed: ").concat(
                m.as_str(),
            ),
            InputError::Validation(e) => String::from_str("invalid transcript: ").concat(
                e.message().as_str(),
            ),
        }
    }
}

/// A control character in the sense of `char::is_control`.
pub open spec fn spec_is_control(ch: char) -> bool {
    let u = ch as u32;
    u < 0x20 || (0x7F <= u && u <= 0x9F)
}

fn is_control_char(ch: char) -> (r: bool)
    ensures
        r == spec_is_control(ch),
{
    let u = ch as u32;
    u < 0x20 || (0x7F <= u && u <= 0x9F)
}

/// A character kept by transcript cleaning: not a control character, or white space.
pub open spec fn spec_keeps_char(ch: char) -> bool {
    !spec_is_control(ch) || spec_is_whitespace(ch)
}

/// The transcript with non-whitespace control characters removed.
pub open spec fn spec_clean_transcript(s: Seq<char>) -> Seq<char> {
    s.filter(|c: char| spec_keeps_char(c))
}

/// A character that by itself marks shell-like content.
pub open spec fn spec_is_malicious_char(ch: char) -> bool {
    ch == '`' || ch == ';' || ch == '|' || ch == '>' || ch == '<'
}

/// The text holds one of the shell-like tokens `$(`, backquote, `;`, `&&`,
/// `||`, `|`, `>`, `<` (a lone `|` subsumes `||`).
pub open spec fn spec_contains_malicious(s: Seq<char>) -> bool {
    (exists|i: int| 0 <= i < s.len() && spec_is_malicious_char(#[trigger] s[i])) || (exists|i: int|
        0 <= i && i + 1 < s.len() && ((#[trigger] s[i] == '$' && s[i + 1] == '(') || (s[i] == '&'
            && s[i + 1] == '&')))
}

fn is_malicious_char(ch: char) -> (r: bool)
    ensures
        r == spec_is_malicious_char(ch),
{
    ch == '`' || ch == ';' || ch == '|' || ch == '>' || ch == '<'
}

/// Scans cleaned text for shell-like tokens.
pub fn contains_malicious_patterns(text: &str) -> (r: bool)
    ensures
        r == spec_contains_malicious(text@),
{
    let len: usize = text.unicode_len();
    let mut i: usize = 0;
    while i < len
        invariant
            len == text@.len(),
            0 <= i <= len,
            forall|j: int| 0 <= j < i ==> !spec_is_malicious_char(#[trigger] text@[j]),
            forall|j: int|
                0 <= j < i && j + 1 < len ==> !(#[trigger] text@[j] == '$' && text@[j + 1] == '(')
                    && !(text@[j] == '&' && text@[j + 1] == '&'),
        decreases len - i,
    {
        let c = text.get_char(i);
        if is_malicious_char(c) {
            return true;
        }
        if i + 1 < len {
            let next = text.get_char(i + 1);
            if (c == '$' && next == '(') || (c == '&' && next == '&') {
                return true;
            }
        }
        i = i + 1;
    }
    false
}

/// Cleans a transcript and rejects it when it is over-long or shell-like.
///
/// Control characters that are not white space are stripped; the cleaned
/// text is rejected exactly when it holds a shell-like token.
pub fn validate_transcript(text: &str) -> (r: Result<String, ValidationError>)
    ensures
        match r {
            Ok(cleaned) => text@.len() <= MAX_TRANSCRIPT_LENGTH && cleaned@
                == spec_clean_transcript(text@) && !spec_contains_malicious(
                spec_clean_transcript(text@),
            ),
            Err(e) => (e is TooLong <==> text@.len() > MAX_TRANSCRIPT_LENGTH) && (e
                is MaliciousContent ==> spec_contains_malicious(spec_clean_transcript(text@))),
        },
{
    let len: usize = text.unicode_len();
    if len > MAX_TRANSCRIPT_LENGTH {
        return Err(ValidationError::TooLong);
    }
    let mut cleaned = String::new();
    let mut i: usize = 0;
    proof {
        reveal_with_fuel(Seq::<_>::filter, 2);
        assert(text@.take(0int).filter(|c: char| spec_keeps_char(c)) =~= Seq::<char>::empty());
    }
    while i < len
        invariant
            len == text@.len(),
            0 <= i <= len,
            cleaned@ == text@.take(i as int).filter(|c: char| spec_keeps_char(c)),
        decreases len - i,
    {
        let c = text.get_char(i);
        proof {
            reveal_with_fuel(Seq::<_>::filter, 2);
            assert(text@.take(i + 1int).drop_last() =~= text@.take(i as int));
            assert(text@.take(i + 1int).last() == text@[i as int]);
        }
        if !is_control_char(c) || crate::text::is_whitespace_char(c) {
            push_char(&mut cleaned, c);
        }
        i = i + 1;
    }
    proof {
        assert(text@.take(len as int) =~= text@);
    }
    if contains_malicious_patterns(cleaned.as_str()) {
        return Err(ValidationError::MaliciousContent);
    }
    Ok(cleaned)
}

/// What `hanconv::t2s` returns: the result depends on the characters alone.
pub uninterp spec fn simplified_of(s: Seq<char>) -> Seq<char>;

/// Relies on hanconv::t2s: Traditional→Simplified Chinese conversion, a pure
/// function of the input text; an empty input stays empty.
#[verifier::external_body]
fn to_simplified(s: &str) -> (r: String)
    ensures
        r@ == simplified_of(s@),
        s@.len() == 0 ==> r@.len() == 0,
{
    hanconv::t2s(s)
}

/// The normalized transcript: trimmed, and mapped to Simplified Chinese when
/// the session language is `zho`.
pub open spec fn spec_normalize_transcript(t: Seq<char>, lang: Seq<char>) -> Seq<char> {
    let trimmed = spec_trim(t);
    if trimmed.len() == 0 {
        Seq::<char>::empty()
    } else if spec_trim(lang) == "zho"@ {
        simplified_of(trimmed)
    } else {
        trimmed
    }
}

/// Trims the transcript; for Chinese sessions maps Traditional to Simplified.
pub fn normalize_transcript_text(text: &str, language_code: &str) -> (r: String)
    ensures
        r@ == spec_normalize_transcript(text@, language_code@),
{
    let trimmed = trim_of(text);
    if trimmed.as_str().unicode_len() == 0 {
        proof {
            assert(trimmed@ =~= Seq::<char>::empty());
        }
        return trimmed;
    }
    let lang = trim_of(language_code);
    if str_eq(lang.as_str(), "zho") {
        to_simplified(trimmed.as_str())
    } else {
        trimmed
    }
}

/// Ignoring trailing closing wrappers, the text ends in terminal punctuation.
pub open spec fn spec_has_terminal_punctuation(s: Seq<char>) -> bool
    decreases s.len(),
{
    if s.len() == 0 {
        false
    } else if spec_is_closing_punctuation_wrapper(s.last()) {
        spec_has_terminal_punctuation(s.drop_last())
    } else {
        spec_is_terminal_punctuation(s.last())
    }
}

pub fn has_terminal_punctuation(text: &str) -> (r: bool)
    ensures
        r == spec_has_terminal_punctuation(text@),
{
    let len: usize = text.unicode_len();
    let mut i: usize = len;
    proof {
        assert(text@.take(len as int) =~= text@);
    }
    while i > 0 && is_closing_punctuation_wrapper(text.get_char(i - 1))
        invariant
            len == text@.len(),
            0 <= i <= len,
            spec_has_terminal_punctuation(text@) == spec_has_terminal_punctuation(
                text@.take(i as int),
            ),
        decreases i,
    {
        proof {
            assert(text@.take(i as int).drop_last() =~= text@.take(i - 1));
        }
        i = i - 1;
    }
    if i == 0 {
        false
    } else {
        proof {
            assert(text@.take(i as int).last() == text@[i - 1]);
        }
        is_terminal_punctuation(text.get_char(i - 1))
    }
}

/// The normalized committed text, with `.` (Latin) or `，` (CJK) appended
/// when no terminal punctuation is present.
pub open spec fn spec_append_terminal_punctuation(t: Seq<char>) -> Seq<char> {
    let trimmed = spec_trim(t);
    if trimmed.len() == 0 {
        Seq::<char>::empty()
    } else if spec_has_terminal_punctuation(trimmed) {
        trimmed
    } else if spec_contains_cjk(trimmed) {
        trimmed.push('，')
    } else {
        trimmed.push('.')
    }
}

/// Appends terminal punctuation to a committed transcript that lacks it.
pub fn append_terminal_punctuation(text: &str) -> (r: String)
    ensures
        r@ == spec_append_terminal_punctuation(text@),
{
    let mut trimmed = trim_of(text);
    if trimmed.as_str().unicode_len() == 0 {
        proof {
            assert(trimmed@ =~= Seq::<char>::empty());
        }
        return trimmed;
    }
    if has_terminal_punctuation(trimmed.as_str()) {
        return trimmed;
    }
    if contains_cjk(trimmed.as_str()) {
        push_char(&mut trimmed, '，');
    } else {
        push_char(&mut trimmed, '.');
    }
    trimmed
}

pub open spec fn spec_wrapper_scan(t: Seq<char>, i: int) -> int
    decreases i,
{
    if i > 0 && spec_is_closing_punctuation_wrapper(t[i]) {
        spec_wrapper_scan(t, i - 1)
    } else {
        i
    }
}

proof fn lemma_wrapper_scan_bounds(t: Seq<char>, i: int)
    requires
        0 <= i,
    ensures
        0 <= spec_wrapper_scan(t, i) <= i,
    decreases i,
{
    if i > 0 && spec_is_closing_punctuation_wrapper(t[i]) {
        lemma_wrapper_scan_bounds(t, i - 1);
    }
}

/// The terminal-punctuation tail of the text: the last run of closing
/// wrappers, together with the terminal mark just before it, or empty.
pub open spec fn spec_extract_terminal_punctuation_suffix(s: Seq<char>) -> Seq<char> {
    let t = spec_trim_end(s);
    if t.len() == 0 {
        Seq::<char>::empty()
    } else {
        let i = spec_wrapper_scan(t, t.len() - 1);
        if spec_is_terminal_punctuation(t[i]) {
            t.skip(i)
        } else {
            Seq::<char>::empty()
        }
    }
}

/// Extracts the terminal-punctuation suffix of a committed transcript.
pub fn extract_terminal_punctuation_suffix(text: &str) -> (r: String)
    ensures
        r@ == spec_extract_terminal_punctuation_suffix(text@),
{
    let trimmed = trim_end_of(text);
    let len: usize = trimmed.as_str().unicode_len();
    if len == 0 {
        return String::new();
    }
    let ghost t = trimmed@;
    let mut i: usize = len - 1;
    while i > 0 && is_closing_punctuation_wrapper(trimmed.as_str().get_char(i))
        invariant
            len == t.len(),
            trimmed@ == t,
            0 <= i < len,
            spec_wrapper_scan(t, len - 1) == spec_wrapper_scan(t, i as int),
        decreases i,
    {
        i = i - 1;
    }
    proof {
        assert(spec_wrapper_scan(t, i as int) == i as int);
        lemma_wrapper_scan_bounds(t, len - 1);
    }
    if is_terminal_punctuation(trimmed.as_str().get_char(i)) {
        suffix_from_char_index(trimmed.as_str(), i)
    } else {
        String::new()
    }
}

/// Every character is terminal punctuation or a closing wrapper.
pub open spec fn spec_all_terminal_or_wrapper(s: Seq<char>) -> bool {
    forall|i: int|
        0 <= i < s.len() ==> spec_is_terminal_punctuation(#[trigger] s[i])
            || spec_is_closing_punctuation_wrapper(s[i])
}

fn all_terminal_or_wrapper(text: &str) -> (r: bool)
    ensures
        r == spec_all_terminal_or_wrapper(text@),
{
    let len: usize = text.unicode_len();
    let mut i: usize = 0;
    while i < len
        invariant
            len == text@.len(),
            0 <= i <= len,
            forall|j: int|
                0 <= j < i ==> spec_is_terminal_punctuation(#[trigger] text@[j])
                    || spec_is_closing_punctuation_wrapper(text@[j]),
        decreases len - i,
    {
        let c = text.get_char(i);
        if !is_terminal_punctuation(c) && !is_closing_punctuation_wrapper(c) {
            return false;
        }
        i = i + 1;
    }
    true
}

/// The delta owed to the cursor once `committed` arrives while `injected`
/// is already on screen: the committed tail when it is punctuation-only,
/// otherwise nothing, or the committed text's own terminal suffix when the
/// injected text still lacks terminal punctuation.
pub open spec fn spec_resolve_committed_punctuation_delta(c0: Seq<char>, i0: Seq<char>) -> Seq<
    char,
> {
    let c = spec_trim(c0);
    if c.len() == 0 {
        Seq::<char>::empty()
    } else {
        let inj = spec_trim(i0);
        if inj.len() == 0 || c == inj {
            Seq::<char>::empty()
        } else if spec_is_prefix(inj, c) && spec_all_terminal_or_wrapper(
            spec_trim(c.skip(inj.len() as int)),
        ) {
            c.skip(inj.len() as int)
        } else if spec_has_terminal_punctuation(inj) {
            Seq::<char>::empty()
        } else {
            spec_extract_terminal_punctuation_suffix(c)
        }
    }
}

/// Resolves what remains to inject for a committed transcript.
pub fn resolve_committed_punctuation_delta(committed_text: &str, injected_text: &str) -> (r:
    String)
    ensures
        r@ == spec_resolve_committed_punctuation_delta(committed_text@, injected_text@),
{
    let c = trim_of(committed_text);
    if c.as_str().unicode_len() == 0 {
        return String::new();
    }
    let inj = trim_of(injected_text);
    if inj.as_str().unicode_len() == 0 || str_eq(c.as_str(), inj.as_str()) {
        return String::new();
    }
    if let Some(delta) = strip_prefix_chars(c.as_str(), inj.as_str()) {
        let delta_trimmed = trim_of(delta.as_str());
        if all_terminal_or_wrapper(delta_trimmed.as_str()) {
            return delta;
        }
    }
    if has_terminal_punctuation(inj.as_str()) {
        String::new()
    } else {
        extract_terminal_punctuation_suffix(c.as_str())
    }
}


/// Short ASCII text is typed key by key; anything else goes through the
/// clipboard paste path.
pub fn should_inject_via_keyboard(text: &str, threshold: usize) -> (r: bool)
    ensures
        r == (vstd::string::is_ascii(text) && text@.len() < threshold),
{
    text.is_ascii() && text.unicode_len() < threshold
}

} // verus!
