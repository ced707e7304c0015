//! Character classes and string primitives shared by the transcript logic.

use vstd::prelude::*;

verus! {

/// Code points treated as CJK for punctuation and spacing decisions.
pub open spec fn spec_is_cjk(ch: char) -> bool {
    let u = ch as u32;
    (0x3400 <= u && u <= 0x4DBF) || (0x4E00 <= u && u <= 0x9FFF) || (0xF900 <= u && u <= 0xFAFF)
        || (0x20000 <= u && u <= 0x2A6DF) || (0x2A700 <= u && u <= 0x2B73F) || (0x2B740 <= u
        && u <= 0x2B81F) || (0x2B820 <= u && u <= 0x2CEAF) || (0x2CEB0 <= u && u <= 0x2EBEF) || (
    0x3000 <= u && u <= 0x303F)
}

/// Checks if a character is a CJK (Chinese, Japanese, Korean) character.
pub fn is_cjk(ch: char) -> (r: bool)
    ensures
        r == spec_is_cjk(ch),
{
    let u = ch as u32;
    (0x3400 <= u && u <= 0x4DBF) || (0x4E00 <= u && u <= 0x9FFF) || (0xF900 <= u && u <= 0xFAFF)
        || (0x20000 <= u && u <= 0x2A6DF) || (0x2A700 <= u && u <= 0x2B73F) || (0x2B740 <= u
        && u <= 0x2B81F) || (0x2B820 <= u && u <= 0x2CEAF) || (0x2CEB0 <= u && u <= 0x2EBEF) || (
    0x3000 <= u && u <= 0x303F)
}

pub open spec fn spec_contains_cjk(s: Seq<char>) -> bool {
    exists|i: int| 0 <= i < s.len() && spec_is_cjk(s[i])
}

/// Checks if text contains any CJK characters.
pub fn contains_cjk(text: &str) -> (r: bool)
    ensures
        r == spec_contains_cjk(text@),
{
    let len: usize = text.unicode_len();
    let mut i: usize = 0;
    while i < len
        invariant
            len == text@.len(),
            0 <= i <= len,
            forall|j: int| 0 <= j < i ==> !spec_is_cjk(text@[j]),
        decreases len - i,
    {
        if is_cjk(text.get_char(i)) {
            return true;
        }
        i = i + 1;
    }
    false
}

/// Punctuation that joins adjacent text segments without a space.
pub open spec fn spec_is_join_boundary_punctuation(ch: char) -> bool {
    ch == '.' || ch == ',' || ch == '!' || ch == '?' || ch == ';' || ch == ':' || ch == '，' || ch
        == '。' || ch == '！' || ch == '？' || ch == '；' || ch == '：' || ch == '、'
}

/// Checks if a character is punctuation that can join text segments.
pub fn is_join_boundary_punctuation(ch: char) -> (r: bool)
    ensures
        r == spec_is_join_boundary_punctuation(ch),
{
    ch == '.' || ch == ',' || ch == '!' || ch == '?' || ch == ';' || ch == ':' || ch == '，' || ch
        == '。' || ch == '！' || ch == '？' || ch == '；' || ch == '：' || ch == '、'
}

/// Sentence-terminal punctuation recognised on committed transcripts.
pub open spec fn spec_is_terminal_punctuation(ch: char) -> bool {
    ch == '.' || ch == ',' || ch == '!' || ch == '?' || ch == '，' || ch == '。' || ch == '！'
        || ch == '？'
}

pub fn is_terminal_punctuation(ch: char) -> (r: bool)
    ensures
        r == spec_is_terminal_punctuation(ch),
{
    ch == '.' || ch == ',' || ch == '!' || ch == '?' || ch == '，' || ch == '。' || ch == '！'
        || ch == '？'
}

/// Closing quotes and brackets that may follow terminal punctuation.
pub open spec fn spec_is_closing_punctuation_wrapper(ch: char) -> bool {
    ch == '"' || ch == '\'' || ch == '”' || ch == '’' || ch == ')' || ch == ']' || ch == '}'
}

pub fn is_closing_punctuation_wrapper(ch: char) -> (r: bool)
    ensures
        r == spec_is_closing_punctuation_wrapper(ch),
{
    ch == '"' || ch == '\'' || ch == '”' || ch == '’' || ch == ')' || ch == ']' || ch == '}'
}

/// The Unicode white-space code points, as `char::is_whitespace` reports them.
pub open spec fn spec_is_whitespace(ch: char) -> bool {
    let u = ch as u32;
    (0x09 <= u && u <= 0x0D) || u == 0x20 || u == 0x85 || u == 0xA0 || u == 0x1680 || (0x2000 <= u
        && u <= 0x200A) || u == 0x2028 || u == 0x2029 || u == 0x202F || u == 0x205F || u == 0x3000
}

pub fn is_whitespace_char(ch: char) -> (r: bool)
    ensures
        r == spec_is_whitespace(ch),
{
    let u = ch as u32;
    (0x09 <= u && u <= 0x0D) || u == 0x20 || u == 0x85 || u == 0xA0 || u == 0x1680 || (0x2000 <= u
        && u <= 0x200A) || u == 0x2028 || u == 0x2029 || u == 0x202F || u == 0x205F || u == 0x3000
}

/// The sequence without its leading white space.
pub open spec fn spec_trim_start(s: Seq<char>) -> Seq<char>
    decreases s.len(),
{
    if s.len() == 0 {
        s
    } else if spec_is_whitespace(s[0]) {
        spec_trim_start(s.drop_first())
    } else {
        s
    }
}

/// The sequence without its trailing white space.
pub open spec fn spec_trim_end(s: Seq<char>) -> Seq<char>
    decreases s.len(),
{
    if s.len() == 0 {
        s
    } else if spec_is_whitespace(s.last()) {
        spec_trim_end(s.drop_last())
    } else {
        s
    }
}

/// The sequence without leading and trailing white space.
pub open spec fn spec_trim(s: Seq<char>) -> Seq<char> {
    spec_trim_end(spec_trim_start(s))
}

proof fn lemma_trim_start_skip(s: Seq<char>, k: int)
    requires
        0 <= k <= s.len(),
        forall|j: int| 0 <= j < k ==> spec_is_whitespace(s[j]),
        k == s.len() || !spec_is_whitespace(s[k]),
    ensures
        spec_trim_start(s) == s.skip(k),
    decreases k,
{
    if k == 0 {
        assert(s.skip(0) =~= s);
    } else {
        assert(spec_is_whitespace(s[0]));
        let rest = s.drop_first();
        assert(rest =~= s.skip(1));
        lemma_trim_start_skip(rest, k - 1);
        assert(rest.skip(k - 1) =~= s.skip(k));
    }
}

proof fn lemma_trim_end_take(s: Seq<char>, e: int)
    requires
        0 <= e <= s.len(),
        forall|j: int| e <= j < s.len() ==> spec_is_whitespace(s[j]),
        e == 0 || !spec_is_whitespace(s[e - 1]),
    ensures
        spec_trim_end(s) == s.take(e),
    decreases s.len() - e,
{
    if e == s.len() {
        if s.len() == 0 {
            assert(s.take(0) =~= s);
        } else if spec_is_whitespace(s.last()) {
            assert(false);
        } else {
            assert(s.take(e) =~= s);
        }
    } else {
        assert(spec_is_whitespace(s.last()));
        let rest = s.drop_last();
        lemma_trim_end_take(rest, e);
        assert(rest.take(e) =~= s.take(e));
    }
}

/// The trimmed sequence keeps no white space at either end.
pub proof fn lemma_trim_ends_non_whitespace(s: Seq<char>)
    ensures
        spec_trim_start(s).len() > 0 ==> !spec_is_whitespace(spec_trim_start(s)[0]),
        spec_trim_end(s).len() > 0 ==> !spec_is_whitespace(spec_trim_end(s).last()),
    decreases s.len(),
{
    if s.len() > 0 {
        lemma_trim_ends_non_whitespace(s.drop_first());
        lemma_trim_ends_non_whitespace(s.drop_last());
    }
}

/// Trimming the end keeps a prefix, so the head character is unchanged.
pub proof fn lemma_trim_end_is_prefix(s: Seq<char>)
    ensures
        spec_trim_end(s).len() <= s.len(),
        forall|j: int|
            0 <= j < spec_trim_end(s).len() ==> #[trigger] spec_trim_end(s)[j] == s[j],
    decreases s.len(),
{
    if s.len() > 0 && spec_is_whitespace(s.last()) {
        lemma_trim_end_is_prefix(s.drop_last());
    }
}

/// The first character of a nonempty trimmed sequence is not white space.
pub proof fn lemma_trim_head_non_whitespace(s: Seq<char>)
    ensures
        spec_trim(s).len() > 0 ==> !spec_is_whitespace(spec_trim(s)[0]),
        spec_trim(s).len() > 0 ==> !spec_is_whitespace(spec_trim(s).last()),
{
    lemma_trim_ends_non_whitespace(s);
    lemma_trim_ends_non_whitespace(spec_trim_start(s));
    lemma_trim_end_is_prefix(spec_trim_start(s));
}

/// What `str::to_lowercase` returns: Unicode lowercasing, a function of the
/// characters alone.
pub uninterp spec fn lower_of(s: Seq<char>) -> Seq<char>;

/// Relies on str::to_lowercase: the result depends on the characters alone,
/// and an empty string stays empty.
#[verifier::external_body]
pub fn to_lowercase(s: &str) -> (r: String)
    ensures
        r@ == lower_of(s@),
        s@.len() == 0 ==> r@.len() == 0,
{
    s.to_lowercase()
}

/// Relies on `String::push`: appends exactly the one character.
#[verifier::external_body]
pub fn push_char(s: &mut String, c: char)
    ensures
        final(s)@ == old(s)@.push(c),
{
    s.push(c)
}

/// `str::trim_end`, stated over the character view.
pub fn trim_end_of(s: &str) -> (r: String)
    ensures
        r@ == spec_trim_end(s@),
{
    let len: usize = s.unicode_len();
    let mut end: usize = len;
    while end > 0 && is_whitespace_char(s.get_char(end - 1))
        invariant
            len == s@.len(),
            0 <= end <= len,
            forall|j: int| end <= j < len ==> spec_is_whitespace(s@[j]),
        decreases end,
    {
        end = end - 1;
    }
    proof {
        lemma_trim_end_take(s@, end as int);
        assert(s@.take(end as int) =~= s@.subrange(0, end as int));
    }
    let sub = s.substring_char(0, end);
    String::from_str(sub)
}

/// `str::trim`, stated over the character view.
pub fn trim_of(s: &str) -> (r: String)
    ensures
        r@ == spec_trim(s@),
{
    let len: usize = s.unicode_len();
    let mut start: usize = 0;
    while start < len && is_whitespace_char(s.get_char(start))
        invariant
            len == s@.len(),
            0 <= start <= len,
            forall|j: int| 0 <= j < start ==> spec_is_whitespace(s@[j]),
        decreases len - start,
    {
        start = start + 1;
    }
    let mut end: usize = len;
    while end > start && is_whitespace_char(s.get_char(end - 1))
        invariant
            len == s@.len(),
            0 <= start <= end <= len,
            forall|j: int| end <= j < len ==> spec_is_whitespace(s@[j]),
        decreases end,
    {
        end = end - 1;
    }
    proof {
        lemma_trim_start_skip(s@, start as int);
        let skipped = s@.skip(start as int);
        lemma_trim_end_take(skipped, end - start);
        assert(skipped.take(end - start) =~= s@.subrange(start as int, end as int));
    }
    let sub = s.substring_char(start, end);
    String::from_str(sub)
}

/// Character-for-character equality of two string slices.
pub fn str_eq(a: &str, b: &str) -> (r: bool)
    ensures
        r == (a@ == b@),
{
    let a_len: usize = a.unicode_len();
    let b_len: usize = b.unicode_len();
    if a_len != b_len {
        return false;
    }
    let mut i: usize = 0;
    while i < a_len
        invariant
            a_len == a@.len(),
            a_len == b@.len(),
            0 <= i <= a_len,
            forall|j: int| 0 <= j < i ==> a@[j] == b@[j],
        decreases a_len - i,
    {
        if a.get_char(i) != b.get_char(i) {
            return false;
        }
        i = i + 1;
    }
    proof {
        assert(a@ =~= b@);
    }
    true
}

/// `p` is an initial segment of `s`.
pub open spec fn spec_is_prefix(p: Seq<char>, s: Seq<char>) -> bool {
    p.len() <= s.len() && s.take(p.len() as int) == p
}

/// `str::strip_prefix`, stated over character views.
pub fn strip_prefix_chars(s: &str, prefix: &str) -> (r: Option<String>)
    ensures
        match r {
            Some(rest) => spec_is_prefix(prefix@, s@) && rest@ == s@.skip(prefix@.len() as int),
            None => !spec_is_prefix(prefix@, s@),
        },
{
    let s_len: usize = s.unicode_len();
    let p_len: usize = prefix.unicode_len();
    if p_len > s_len {
        proof {
            assert(!spec_is_prefix(prefix@, s@));
        }
        return None;
    }
    let mut i: usize = 0;
    while i < p_len
        invariant
            s_len == s@.len(),
            p_len == prefix@.len(),
            p_len <= s_len,
            0 <= i <= p_len,
            forall|j: int| 0 <= j < i ==> s@[j] == prefix@[j],
        decreases p_len - i,
    {
        if s.get_char(i) != prefix.get_char(i) {
            proof {
                assert(s@.take(p_len as int)[i as int] != prefix@[i as int]);
            }
            return None;
        }
        i = i + 1;
    }
    proof {
        assert(s@.take(p_len as int) =~= prefix@);
    }
    let rest = s.substring_char(p_len, s_len);
    proof {
        assert(s@.subrange(p_len as int, s_len as int) =~= s@.skip(p_len as int));
    }
    Some(String::from_str(rest))
}

/// Number of leading characters on which the two sequences agree.
pub open spec fn spec_common_prefix_len(a: Seq<char>, b: Seq<char>) -> int
    decreases a.len(),
{
    if a.len() == 0 || b.len() == 0 || a[0] != b[0] {
        0
    } else {
        1 + spec_common_prefix_len(a.drop_first(), b.drop_first())
    }
}

proof fn lemma_common_prefix_scan(a: Seq<char>, b: Seq<char>, i: int)
    requires
        0 <= i <= a.len(),
        i <= b.len(),
        forall|j: int| 0 <= j < i ==> a[j] == b[j],
        i == a.len() || i == b.len() || a[i] != b[i],
    ensures
        spec_common_prefix_len(a, b) == i,
    decreases i,
{
    if i == 0 {
    } else {
        assert(a[0] == b[0]);
        let a2 = a.drop_first();
        let b2 = b.drop_first();
        assert(forall|j: int| 0 <= j < i - 1 ==> a2[j] == b2[j]);
        lemma_common_prefix_scan(a2, b2, i - 1);
    }
}

/// Basic bounds and agreement facts about the common prefix length.
pub proof fn lemma_common_prefix_props(a: Seq<char>, b: Seq<char>)
    ensures
        0 <= spec_common_prefix_len(a, b) <= a.len(),
        spec_common_prefix_len(a, b) <= b.len(),
        forall|j: int| 0 <= j < spec_common_prefix_len(a, b) ==> a[j] == b[j],
    decreases a.len(),
{
    if a.len() == 0 || b.len() == 0 || a[0] != b[0] {
    } else {
        let a2 = a.drop_first();
        let b2 = b.drop_first();
        lemma_common_prefix_props(a2, b2);
        assert forall|j: int| 0 <= j < spec_common_prefix_len(a, b) implies a[j] == b[j] by {
            if j > 0 {
                assert(a2[j - 1] == b2[j - 1]);
            }
        }
    }
}

/// Length of the longest common character prefix of two strings.
pub fn common_prefix_char_count(left: &str, right: &str) -> (r: usize)
    ensures
        r as int == spec_common_prefix_len(left@, right@),
{
    let left_len: usize = left.unicode_len();
    let right_len: usize = right.unicode_len();
    let min_len: usize = if left_len < right_len {
        left_len
    } else {
        right_len
    };
    let mut i: usize = 0;
    while i < min_len && left.get_char(i) == right.get_char(i)
        invariant
            left_len == left@.len(),
            right_len == right@.len(),
            min_len <= left_len,
            min_len <= right_len,
            0 <= i <= min_len,
            forall|j: int| 0 <= j < i ==> left@[j] == right@[j],
        decreases min_len - i,
    {
        i = i + 1;
    }
    proof {
        lemma_common_prefix_scan(left@, right@, i as int);
    }
    i
}

/// The suffix of `text` starting at character `char_index`; empty past the end.
pub fn suffix_from_char_index(text: &str, char_index: usize) -> (r: String)
    ensures
        char_index <= text@.len() ==> r@ == text@.skip(char_index as int),
        char_index > text@.len() ==> r@ == Seq::<char>::empty(),
{
    let len: usize = text.unicode_len();
    if char_index >= len {
        proof {
            if char_index <= text@.len() {
                assert(text@.skip(char_index as int) =~= Seq::<char>::empty());
            }
        }
        String::new()
    } else {
        let sub = text.substring_char(char_index, len);
        proof {
            assert(text@.subrange(char_index as int, len as int) =~= text@.skip(
                char_index as int,
            ));
        }
        String::from_str(sub)
    }
}

/// The last character of `s` that is not white space, if any.
pub open spec fn spec_last_non_whitespace(s: Seq<char>) -> Option<char>
    decreases s.len(),
{
    if s.len() == 0 {
        None
    } else if !spec_is_whitespace(s.last()) {
        Some(s.last())
    } else {
        spec_last_non_whitespace(s.drop_last())
    }
}

pub fn last_non_whitespace(s: &str) -> (r: Option<char>)
    ensures
        r == spec_last_non_whitespace(s@),
{
    let len: usize = s.unicode_len();
    let mut i: usize = len;
    proof {
        assert(s@.take(len as int) =~= s@);
    }
    while i > 0 && is_whitespace_char(s.get_char(i - 1))
        invariant
            len == s@.len(),
            0 <= i <= len,
            spec_last_non_whitespace(s@) == spec_last_non_whitespace(s@.take(i as int)),
        decreases i,
    {
        proof {
            assert(s@.take(i as int).drop_last() =~= s@.take(i - 1));
        }
        i = i - 1;
    }
    if i == 0 {
        None
    } else {
        proof {
            assert(s@.take(i as int).last() == s@[i - 1]);
        }
        Some(s.get_char(i - 1))
    }
}

/// `needle` occurs contiguously somewhere in `hay`.
pub open spec fn spec_contains_seq(hay: Seq<char>, needle: Seq<char>) -> bool {
    exists|i: int|
        0 <= i <= hay.len() - needle.len() && #[trigger] hay.subrange(i, i + needle.len())
            == needle
}

fn matches_at(hay: &str, hay_len: usize, needle: &str, needle_len: usize, at: usize) -> (r: bool)
    requires
        hay_len == hay@.len(),
        needle_len == needle@.len(),
        at + needle_len <= hay_len,
    ensures
        r == (hay@.subrange(at as int, at + needle@.len()) == needle@),
{
    let mut j: usize = 0;
    while j < needle_len
        invariant
            hay_len == hay@.len(),
            needle_len == needle@.len(),
            at + needle_len <= hay_len,
            0 <= j <= needle_len,
            forall|k: int| 0 <= k < j ==> hay@[at + k] == needle@[k],
        decreases needle_len - j,
    {
        if hay.get_char(at + j) != needle.get_char(j) {
            proof {
                assert(hay@.subrange(at as int, at + needle@.len())[j as int] != needle@[j as int]);
            }
            return false;
        }
        j = j + 1;
    }
    proof {
        assert(hay@.subrange(at as int, at + needle@.len()) =~= needle@);
    }
    true
}

/// `str::contains` for a literal needle, stated over character views.
pub fn contains_substring(hay: &str, needle: &str) -> (r: bool)
    ensures
        r == spec_contains_seq(hay@, needle@),
{
    let hay_len: usize = hay.unicode_len();
    let needle_len: usize = needle.unicode_len();
    if needle_len > hay_len {
        return false;
    }
    if needle_len == 0 {
        proof {
            assert(hay@.subrange(0, 0 + needle@.len() as int) =~= needle@);
        }
        return true;
    }
    let mut i: usize = 0;
    while i <= hay_len - needle_len
        invariant
            hay_len == hay@.len(),
            needle_len == needle@.len(),
            0 < needle_len <= hay_len,
            0 <= i <= hay_len - needle_len + 1,
            forall|k: int|
                0 <= k < i ==> #[trigger] hay@.subrange(k, k + needle@.len()) != needle@,
        decreases hay_len - needle_len + 1 - i,
    {
        if matches_at(hay, hay_len, needle, needle_len, i) {
            return true;
        }
        i = i + 1;
    }
    false
}

} // verus!

