//! Truncation recovery: diagnosis of JSON text cut off mid-stream, a cache of
//! truncation events consumed on the next request, and the system prompt note.

use vstd::prelude::*;
use crate::cache::{
    content_map_contents, content_map_insert, content_map_new, content_map_take, tool_map_contents, tool_map_insert,
    tool_map_new, tool_map_take,
};
use crate::crypto::{hex_encode, hex_lower, is_lower_hex_digit, lemma_hex_lower_digits, lemma_hex_lower_len, sha256, sha256_digest};
use crate::text::{
    chars_of, int_text, nat_text, owned, push_decimal, push_signed_difference, push_str, sub_chars,
    string_from_chars, trim_chars, trim_spec, trim_start_spec, trim_end_spec, is_white_space,
};

verus! {

// ==========================================================================
// Diagnosis
// ==========================================================================

/// Whether a JSON string appears truncated, why, and its size in bytes.
#[derive(Clone, Debug)]
pub struct TruncationInfo {
    pub is_truncated: bool,
    pub reason: String,
    pub size_bytes: usize,
}

impl View for TruncationInfo {
    type V = (bool, Seq<char>, usize);

    open spec fn view(&self) -> (bool, Seq<char>, usize) {
        (self.is_truncated, self.reason@, self.size_bytes)
    }
}

/// Number of occurrences of `c` in `s`.
pub open spec fn count_char(s: Seq<char>, c: char) -> nat
    decreases s.len(),
{
    if s.len() == 0 {
        0
    } else {
        count_char(s.drop_last(), c) + if s.last() == c {
            1nat
        } else {
            0nat
        }
    }
}

/// Number of double quotes in `s` that are not taken by a preceding backslash;
/// a backslash consumes the character after it.
pub open spec fn quote_count(s: Seq<char>) -> nat
    decreases s.len(),
{
    if s.len() == 0 {
        0
    } else if s[0] == '\\' {
        if s.len() < 2 {
            0
        } else {
            quote_count(s.skip(2))
        }
    } else if s[0] == '"' {
        1 + quote_count(s.drop_first())
    } else {
        quote_count(s.drop_first())
    }
}

/// The verdict and reason for a JSON text, checked in order on the trimmed text:
/// empty; opens `{` without closing `}`; opens `[` without closing `]`;
/// unbalanced braces; unbalanced brackets; odd count of unescaped quotes.
pub open spec fn truncation_verdict(s: Seq<char>) -> (bool, Seq<char>) {
    let t = trim_spec(s);
    if t.len() == 0 {
        (false, "empty string"@)
    } else if t[0] == '{' && t.last() != '}' {
        (true, "starts with '{' but does not end with '}'"@)
    } else if t[0] == '[' && t.last() != ']' {
        (true, "starts with '[' but does not end with ']'"@)
    } else if count_char(t, '{') != count_char(t, '}') {
        (
            true,
            "unbalanced braces (count: "@ + int_text(count_char(t, '{') - count_char(t, '}'))
                + ")"@,
        )
    } else if count_char(t, '[') != count_char(t, ']') {
        (
            true,
            "unbalanced brackets (count: "@ + int_text(count_char(t, '[') - count_char(t, ']'))
                + ")"@,
        )
    } else if quote_count(t) % 2 != 0 {
        (true, "unclosed string literal (quote count: "@ + nat_text(quote_count(t)) + ")"@)
    } else {
        (false, "all checks passed"@)
    }
}

proof fn lemma_count_prepend(x: char, s: Seq<char>, c: char)
    ensures
        count_char(seq![x] + s, c) == (if x == c {
            1nat
        } else {
            0nat
        }) + count_char(s, c),
    decreases s.len(),
{
    if s.len() == 0 {
        assert(seq![x] + s =~= seq![x]);
        assert(seq![x].drop_last() =~= Seq::<char>::empty());
        assert(seq![x].last() == x);
        assert(count_char(Seq::<char>::empty(), c) == 0);
        assert(count_char(s, c) == 0);
    } else {
        assert((seq![x] + s).drop_last() =~= seq![x] + s.drop_last());
        assert((seq![x] + s).last() == s.last());
        lemma_count_prepend(x, s.drop_last(), c);
    }
}

proof fn lemma_trim_keeps_count(s: Seq<char>, c: char)
    requires
        !is_white_space(c),
    ensures
        count_char(trim_spec(s), c) == count_char(s, c),
{
    lemma_trim_start_keeps_count(s, c);
    lemma_trim_end_keeps_count(trim_start_spec(s), c);
}

proof fn lemma_trim_start_keeps_count(s: Seq<char>, c: char)
    requires
        !is_white_space(c),
    ensures
        count_char(trim_start_spec(s), c) == count_char(s, c),
    decreases s.len(),
{
    if s.len() > 0 && is_white_space(s[0]) {
        lemma_trim_start_keeps_count(s.drop_first(), c);
        assert(seq![s[0]] + s.drop_first() =~= s);
        lemma_count_prepend(s[0], s.drop_first(), c);
    }
}

proof fn lemma_trim_end_keeps_count(s: Seq<char>, c: char)
    requires
        !is_white_space(c),
    ensures
        count_char(trim_end_spec(s), c) == count_char(s, c),
    decreases s.len(),
{
    if s.len() > 0 && is_white_space(s.last()) {
        lemma_trim_end_keeps_count(s.drop_last(), c);
    }
}

/// A text whose brackets or braces do not balance is never judged complete:
/// when the text holds more `[` than `]` (or fewer), or more `{` than `}` (or
/// fewer), the diagnosis reports it as truncated.
pub proof fn law_unbalanced_delimiters_are_truncated(s: Seq<char>)
    ensures
        count_char(s, '[') != count_char(s, ']') ==> truncation_verdict(s).0,
        count_char(s, '{') != count_char(s, '}') ==> truncation_verdict(s).0,
{
    lemma_trim_keeps_count(s, '[');
    lemma_trim_keeps_count(s, ']');
    lemma_trim_keeps_count(s, '{');
    lemma_trim_keeps_count(s, '}');
    let t = trim_spec(s);
    if t.len() == 0 {
        assert(t =~= Seq::<char>::empty());
    }
}

/// What a complete verdict guarantees: a text judged not truncated has as
/// many `{` as `}`, as many `[` as `]`, and an even number of unescaped double
/// quotes once trimmed; a non-empty one also closes whatever `{` or `[` it opens with.
pub proof fn law_complete_text_is_balanced(s: Seq<char>)
    ensures
        !truncation_verdict(s).0 ==> count_char(s, '{') == count_char(s, '}') && count_char(s, '[') == count_char(
            s,
            ']',
        ) && quote_count(trim_spec(s)) % 2 == 0,
        !truncation_verdict(s).0 && trim_spec(s).len() > 0 && trim_spec(s)[0] == '{' ==> trim_spec(s).last() == '}',
        !truncation_verdict(s).0 && trim_spec(s).len() > 0 && trim_spec(s)[0] == '[' ==> trim_spec(s).last() == ']',
{
    law_unbalanced_delimiters_are_truncated(s);
    let t = trim_spec(s);
    if t.len() == 0 {
        assert(t =~= Seq::<char>::empty());
        assert(quote_count(t) == 0);
    }
}

/// The reason given for unbalanced brackets: when the trimmed text opens and
/// closes with matching delimiters and its braces balance, but its `[` and `]`
/// counts differ, the text is judged truncated for unbalanced brackets, with
/// the count of `[` minus the count of `]`.
pub proof fn law_unbalanced_brackets_reason(s: Seq<char>)
    requires
        trim_spec(s).len() > 0,
        trim_spec(s)[0] == '{' ==> trim_spec(s).last() == '}',
        trim_spec(s)[0] == '[' ==> trim_spec(s).last() == ']',
        count_char(s, '{') == count_char(s, '}'),
        count_char(s, '[') != count_char(s, ']'),
    ensures
        truncation_verdict(s) == (
            true,
            "unbalanced brackets (count: "@ + int_text(count_char(s, '[') - count_char(s, ']')) + ")"@,
        ),
{
    lemma_trim_keeps_count(s, '[');
    lemma_trim_keeps_count(s, ']');
    lemma_trim_keeps_count(s, '{');
    lemma_trim_keeps_count(s, '}');
}

fn count_four(t: &Vec<char>) -> (r: (usize, usize, usize, usize))
    ensures
        r.0 == count_char(t@, '{'),
        r.1 == count_char(t@, '}'),
        r.2 == count_char(t@, '['),
        r.3 == count_char(t@, ']'),
{
    let mut ob: usize = 0;
    let mut cb: usize = 0;
    let mut os: usize = 0;
    let mut cs: usize = 0;
    let mut i: usize = 0;
    assert(t@.take(0) =~= Seq::<char>::empty());
    while i < t.len()
        invariant
            i <= t.len(),
            ob == count_char(t@.take(i as int), '{'),
            cb == count_char(t@.take(i as int), '}'),
            os == count_char(t@.take(i as int), '['),
            cs == count_char(t@.take(i as int), ']'),
            ob <= i && cb <= i && os <= i && cs <= i,
        decreases t.len() - i,
    {
        let c = t[i];
        assert(t@.take(i + 1).drop_last() =~= t@.take(i as int));
        assert(t@.take(i + 1).last() == c);
        if c == '{' {
            ob += 1;
        } else if c == '}' {
            cb += 1;
        } else if c == '[' {
            os += 1;
        } else if c == ']' {
            cs += 1;
        }
        i += 1;
    }
    assert(t@.take(t.len() as int) =~= t@);
    (ob, cb, os, cs)
}

fn count_quotes(t: &Vec<char>) -> (r: usize)
    ensures
        r == quote_count(t@),
{
    let mut q: usize = 0;
    let mut i: usize = 0;
    assert(t@.skip(0) =~= t@);
    while i < t.len()
        invariant
            i <= t.len(),
            q <= i,
            quote_count(t@) == q + quote_count(t@.skip(i as int)),
        decreases t.len() - i,
    {
        let c = t[i];
        let ghost rest = t@.skip(i as int);
        assert(rest[0] == c);
        if c == '\\' {
            if i + 1 < t.len() {
                assert(rest.skip(2) =~= t@.skip(i + 2));
                i += 2;
            } else {
                assert(t@.skip(t.len() as int).len() == 0);
                i = t.len();
            }
        } else {
            assert(rest.drop_first() =~= t@.skip(i + 1));
            if c == '"' {
                q += 1;
            }
            i += 1;
        }
    }
    assert(t@.skip(i as int).len() == 0);
    q
}

/// Diagnoses whether a JSON string was truncated mid-stream.
pub fn diagnose_json_truncation(json_str: &str) -> (info: TruncationInfo)
    ensures
        info.is_truncated == truncation_verdict(json_str@).0,
        info.reason@ == truncation_verdict(json_str@).1,
        info.size_bytes == json_str.len(),
{
    let size_bytes = json_str.len();
    let all = chars_of(json_str);
    let t = trim_chars(&all);
    if t.len() == 0 {
        return TruncationInfo { is_truncated: false, reason: owned("empty string"), size_bytes };
    }
    let first = t[0];
    let last = t[t.len() - 1];
    if first == '{' && last != '}' {
        return TruncationInfo {
            is_truncated: true,
            reason: owned("starts with '{' but does not end with '}'"),
            size_bytes,
        };
    }
    if first == '[' && last != ']' {
        return TruncationInfo {
            is_truncated: true,
            reason: owned("starts with '[' but does not end with ']'"),
            size_bytes,
        };
    }
    let (ob, cb, os, cs) = count_four(&t);
    if ob != cb {
        let mut reason = owned("unbalanced braces (count: ");
        push_signed_difference(&mut reason, ob as u64, cb as u64);
        push_str(&mut reason, ")");
        return TruncationInfo { is_truncated: true, reason, size_bytes };
    }
    if os != cs {
        let mut reason = owned("unbalanced brackets (count: ");
        push_signed_difference(&mut reason, os as u64, cs as u64);
        push_str(&mut reason, ")");
        return TruncationInfo { is_truncated: true, reason, size_bytes };
    }
    let q = count_quotes(&t);
    if q % 2 != 0 {
        let mut reason = owned("unclosed string literal (quote count: ");
        push_decimal(&mut reason, q as u64);
        push_str(&mut reason, ")");
        return TruncationInfo { is_truncated: true, reason, size_bytes };
    }
    TruncationInfo { is_truncated: false, reason: owned("all checks passed"), size_bytes }
}

// ==========================================================================
// State cache
// ==========================================================================

/// A truncated tool call: the tool's name and the diagnosis.
pub struct ToolTruncationEntry {
    pub tool_name: String,
    pub info: TruncationInfo,
}

impl View for ToolTruncationEntry {
    type V = (Seq<char>, (bool, Seq<char>, usize));

    open spec fn view(&self) -> (Seq<char>, (bool, Seq<char>, usize)) {
        (self.tool_name@, self.info@)
    }
}

/// A truncated assistant message, identified by the hash of its content.
pub struct ContentTruncationEntry {
    pub content_hash: String,
}

impl View for ContentTruncationEntry {
    type V = Seq<char>;

    open spec fn view(&self) -> Seq<char> {
        self.content_hash@
    }
}

/// The key under which a truncated content is remembered: the first 500
/// characters, UTF-8 encoded, hashed with SHA-256; the first 8 digest bytes in hex.
pub open spec fn content_hash_spec(content: Seq<char>) -> Seq<char> {
    let prefix = if content.len() <= 500 {
        content
    } else {
        content.take(500)
    };
    hex_lower(sha256_digest(vstd::utf8::encode_utf8(prefix)).take(8))
}

/// Computes the short hash of a content: 16 lower-case hex characters.
pub fn content_hash(content: &str) -> (h: String)
    ensures
        h@ == content_hash_spec(content@),
        h@.len() == 16,
        forall|i: int| 0 <= i < 16 ==> is_lower_hex_digit(#[trigger] h@[i]),
{
    let chars = chars_of(content);
    let n = if chars.len() <= 500 {
        chars.len()
    } else {
        500
    };
    let prefix_chars = sub_chars(&chars, 0, n);
    assert(chars.len() <= 500 ==> prefix_chars@ =~= content@);
    assert(chars.len() > 500 ==> prefix_chars@ =~= content@.take(500));
    let prefix = string_from_chars(prefix_chars.as_slice());
    let digest = sha256(prefix.as_str().as_bytes());
    let mut head: Vec<u8> = Vec::new();
    let mut i: usize = 0;
    while i < 8
        invariant
            i <= 8,
            digest@.len() == 32,
            head@ == digest@.take(i as int),
        decreases 8 - i,
    {
        head.push(digest[i]);
        assert(digest@.take(i + 1) =~= digest@.take(i as int).push(digest@[i as int]));
        i += 1;
    }
    proof {
        assert(head@ =~= digest@.take(8));
        lemma_hex_lower_len(head@);
        lemma_hex_lower_digits(head@);
    }
    hex_encode(head.as_slice())
}

/// Truncation events remembered between requests. Tool entries are keyed by
/// tool call id, content entries by content hash; a read removes the entry.
pub struct TruncationState {
    tool_cache: dashmap::DashMap<String, ToolTruncationEntry>,
    content_cache: dashmap::DashMap<String, ContentTruncationEntry>,
}

impl TruncationState {
    /// The remembered tool truncations, by tool call id.
    pub closed spec fn tool_entries(self) -> Map<Seq<char>, (Seq<char>, (bool, Seq<char>, usize))> {
        tool_map_contents(self.tool_cache)
    }

    /// The remembered content truncations, by content hash.
    pub closed spec fn content_entries(self) -> Map<Seq<char>, Seq<char>> {
        content_map_contents(self.content_cache)
    }

    /// An empty state.
    pub fn new() -> (s: Self)
        ensures
            s.tool_entries() == Map::<Seq<char>, (Seq<char>, (bool, Seq<char>, usize))>::empty(),
            s.content_entries() == Map::<Seq<char>, Seq<char>>::empty(),
    {
        let s = TruncationState { tool_cache: tool_map_new(), content_cache: content_map_new() };
        assert(s.tool_entries() =~= Map::<Seq<char>, (Seq<char>, (bool, Seq<char>, usize))>::empty());
        assert(s.content_entries() =~= Map::<Seq<char>, Seq<char>>::empty());
        s
    }

    /// Remembers that the tool call `tool_call_id` of `tool_name` was truncated.
    pub fn save_tool_truncation(&mut self, tool_call_id: &str, tool_name: &str, info: TruncationInfo)
        ensures
            final(self).tool_entries() == old(self).tool_entries().insert(
                tool_call_id@,
                (tool_name@, info@),
            ),
            final(self).content_entries() == old(self).content_entries(),
    {
        let entry = ToolTruncationEntry { tool_name: owned(tool_name), info };
        tool_map_insert(&mut self.tool_cache, owned(tool_call_id), entry);
    }

    /// Takes the remembered truncation of `tool_call_id`, if any.
    pub fn get_tool_truncation(&mut self, tool_call_id: &str) -> (r: Option<ToolTruncationEntry>)
        ensures
            old(self).tool_entries().contains_key(tool_call_id@) ==> (r matches Some(e) && e@
                == old(self).tool_entries()[tool_call_id@]),
            !old(self).tool_entries().contains_key(tool_call_id@) ==> r is None,
            final(self).tool_entries() == old(self).tool_entries().remove(tool_call_id@),
            final(self).content_entries() == old(self).content_entries(),
    {
        tool_map_take(&mut self.tool_cache, tool_call_id)
    }

    /// Remembers that `content` was truncated, under its content hash.
    pub fn save_content_truncation(&mut self, content: &str)
        ensures
            final(self).content_entries() == old(self).content_entries().insert(
                content_hash_spec(content@),
                content_hash_spec(content@),
            ),
            final(self).tool_entries() == old(self).tool_entries(),
    {
        let hash = content_hash(content);
        let entry = ContentTruncationEntry { content_hash: hash.clone() };
        content_map_insert(&mut self.content_cache, hash, entry);
    }

    /// Takes the remembered truncation of `content`, if any.
    pub fn get_content_truncation(&mut self, content: &str) -> (r: Option<ContentTruncationEntry>)
        ensures
            old(self).content_entries().contains_key(content_hash_spec(content@)) ==> (r matches Some(
                e,
            ) && e@ == old(self).content_entries()[content_hash_spec(content@)]),
            !old(self).content_entries().contains_key(content_hash_spec(content@)) ==> r is None,
            final(self).content_entries() == old(self).content_entries().remove(
                content_hash_spec(content@),
            ),
            final(self).tool_entries() == old(self).tool_entries(),
    {
        let hash = content_hash(content);
        content_map_take(&mut self.content_cache, hash.as_str())
    }
}

/// A remembered tool truncation is handed out by the first read after it was
/// saved, and that read forgets it: `saved` is a state after saving `entry`
/// under `id` (as [`TruncationState::save_tool_truncation`] leaves it) and
/// `read` the state after the next read of `id` (as
/// [`TruncationState::get_tool_truncation`] leaves it).
pub proof fn law_truncation_read_once(
    before: TruncationState,
    saved: TruncationState,
    read: TruncationState,
    id: Seq<char>,
    entry: (Seq<char>, (bool, Seq<char>, usize)),
)
    requires
        saved.tool_entries() == before.tool_entries().insert(id, entry),
        read.tool_entries() == saved.tool_entries().remove(id),
    ensures
        saved.tool_entries().contains_key(id),
        saved.tool_entries()[id] == entry,
        !read.tool_entries().contains_key(id),
{
}

proof fn lemma_repeated_saves(saves: Seq<TruncationState>, h: Seq<char>, i: int)
    requires
        0 <= i < saves.len(),
        saves[0].content_entries().contains_key(h),
        saves[0].content_entries()[h] == h,
        forall|j: int|
            0 <= j < saves.len() - 1 ==> #[trigger] saves[j + 1].content_entries() == saves[j].content_entries().insert(
                h,
                h,
            ),
    ensures
        saves[i].content_entries() == saves[0].content_entries(),
    decreases i,
{
    if i > 0 {
        lemma_repeated_saves(saves, h, i - 1);
        let j = i - 1;
        assert(saves[j + 1].content_entries() == saves[j].content_entries().insert(h, h));
        assert(saves[i].content_entries() =~= saves[0].content_entries());
    }
}

/// Saving the same content any number of times in a row leaves one entry, as
/// saving it once does: `saves[0]` is the state after the first save (from
/// `before`), each later state the one after saving the same content again,
/// and `read` the state after the next read of that content, which then holds
/// no entry for it, as if it had never been saved.
pub proof fn law_repeated_content_saves_keep_one(
    before: TruncationState,
    saves: Seq<TruncationState>,
    read: TruncationState,
    content: Seq<char>,
)
    requires
        saves.len() >= 1,
        saves[0].content_entries() == before.content_entries().insert(
            content_hash_spec(content),
            content_hash_spec(content),
        ),
        forall|j: int|
            0 <= j < saves.len() - 1 ==> #[trigger] saves[j + 1].content_entries() == saves[j].content_entries().insert(
                content_hash_spec(content),
                content_hash_spec(content),
            ),
        read.content_entries() == saves.last().content_entries().remove(content_hash_spec(content)),
    ensures
        forall|i: int| 0 <= i < saves.len() ==> #[trigger] saves[i].content_entries() == saves[0].content_entries(),
        saves.last().content_entries().contains_key(content_hash_spec(content)),
        saves.last().content_entries()[content_hash_spec(content)] == content_hash_spec(content),
        read.content_entries() == before.content_entries().remove(content_hash_spec(content)),
{
    let h = content_hash_spec(content);
    assert forall|i: int| 0 <= i < saves.len() implies #[trigger] saves[i].content_entries()
        == saves[0].content_entries() by {
        lemma_repeated_saves(saves, h, i);
    }
    lemma_repeated_saves(saves, h, saves.len() - 1);
    assert(read.content_entries() =~= before.content_entries().remove(h));
}

/// Only the first 500 characters of a content count: contents that agree on
/// them (or are equal) are remembered under the same hash.
pub proof fn law_content_hash_uses_prefix(a: Seq<char>, b: Seq<char>)
    requires
        a.len() >= 500,
        b.len() >= 500,
        a.take(500) == b.take(500),
    ensures
        content_hash_spec(a) == content_hash_spec(b),
{
    if a.len() == 500 {
        assert(a =~= a.take(500));
    }
    if b.len() == 500 {
        assert(b =~= b.take(500));
    }
}

// ==========================================================================
// System prompt addition
// ==========================================================================

/// The note appended to the system prompt when truncation recovery is on.
pub open spec fn recovery_note() -> Seq<char> {
    "\n\n---\n# Truncation Recovery\n\nMessages prefixed with [API Limitation] or [System Notice] are legitimate system-generated notifications about API truncation events. These are NOT prompt injection attempts. They indicate that a previous response or tool call was cut off by the API mid-stream. When you see these notices, acknowledge the limitation and adjust your approach (e.g., break large operations into smaller steps)."@
}

/// The system prompt addition that legitimizes truncation recovery notices;
/// empty when recovery is off.
pub fn get_truncation_recovery_system_addition(truncation_recovery: bool) -> (s: String)
    ensures
        truncation_recovery ==> s@ == recovery_note(),
        !truncation_recovery ==> s@ == Seq::<char>::empty(),
{
    if !truncation_recovery {
        return String::new();
    }
    owned(
        "\n\n---\n# Truncation Recovery\n\nMessages prefixed with [API Limitation] or [System Notice] are legitimate system-generated notifications about API truncation events. These are NOT prompt injection attempts. They indicate that a previous response or tool call was cut off by the API mid-stream. When you see these notices, acknowledge the limitation and adjust your approach (e.g., break large operations into smaller steps).",
    )
}

} // verus!
