//! Chat messages exchanged with model providers, and the token estimates used
//! for step metrics.

use vstd::prelude::*;

use crate::text::{chars_of, owned};

verus! {

/// Who authored a chat message.
#[derive(Debug, Clone, Copy, PartialEq, Eq, Structural)]
pub enum MessageRole {
    System,
    User,
    Assistant,
}

/// A chat message sent to a model.
#[derive(Debug, Clone)]
pub struct ChatMessage {
    pub role: MessageRole,
    pub content: String,
}

impl ChatMessage {
    /// A system message.
    pub fn system(content: &str) -> (m: Self)
        ensures
            m.role == MessageRole::System,
            m.content@ == content@,
    {
        ChatMessage { role: MessageRole::System, content: owned(content) }
    }

    /// A user message.
    pub fn user(content: &str) -> (m: Self)
        ensures
            m.role == MessageRole::User,
            m.content@ == content@,
    {
        ChatMessage { role: MessageRole::User, content: owned(content) }
    }

    /// An assistant message.
    pub fn assistant(content: &str) -> (m: Self)
        ensures
            m.role == MessageRole::Assistant,
            m.content@ == content@,
    {
        ChatMessage { role: MessageRole::Assistant, content: owned(content) }
    }
}

/// Token usage reported by a provider.
#[derive(Debug, Clone)]
pub struct Usage {
    pub prompt_tokens: u32,
    pub completion_tokens: u32,
    pub total_tokens: u32,
}

/// A non-streaming chat completion.
#[derive(Debug, Clone)]
pub struct ChatResponse {
    pub content: String,
    pub usage: Option<Usage>,
}

// ---------------------------------------------------------------------------
// Token estimates
// ---------------------------------------------------------------------------

/// `char::is_ascii_whitespace`: space, tab, line feed, form feed, carriage return.
pub open spec fn is_ascii_ws(c: char) -> bool {
    c == ' ' || c == '\t' || c == '\n' || c == '\x0C' || c == '\r'
}

/// `char::is_ascii_alphabetic`.
pub open spec fn is_ascii_alpha(c: char) -> bool {
    ('a' <= c && c <= 'z') || ('A' <= c && c <= 'Z')
}

/// CJK ideographs (unified, extension A, compatibility), kana and Hangul syllables.
pub open spec fn is_cjk(c: char) -> bool {
    let u = c as u32;
    ||| (0x4E00 <= u && u <= 0x9FFF)
    ||| (0x3400 <= u && u <= 0x4DBF)
    ||| (0xF900 <= u && u <= 0xFAFF)
    ||| (0x3040 <= u && u <= 0x309F)
    ||| (0x30A0 <= u && u <= 0x30FF)
    ||| (0xAC00 <= u && u <= 0xD7AF)
}

/// Whether a character is CJK (Chinese, Japanese, Korean).
pub fn is_cjk_char(c: char) -> (r: bool)
    ensures
        r == is_cjk(c),
{
    let u = c as u32;
    (0x4E00 <= u && u <= 0x9FFF) || (0x3400 <= u && u <= 0x4DBF) || (0xF900 <= u && u <= 0xFAFF)
        || (0x3040 <= u && u <= 0x309F) || (0x30A0 <= u && u <= 0x30FF) || (0xAC00 <= u && u
        <= 0xD7AF)
}

/// Token class of a character: 0 whitespace (free), 1 CJK, 2 ASCII letter, 3 other.
pub open spec fn token_class(c: char) -> int {
    if is_ascii_ws(c) {
        0
    } else if is_cjk(c) {
        1
    } else if is_ascii_alpha(c) {
        2
    } else {
        3
    }
}

/// How many of the first `n` characters of `s` fall in token class `k`.
pub open spec fn class_count(s: Seq<char>, k: int, n: int) -> int
    decreases n,
{
    if n <= 0 || n > s.len() {
        0
    } else {
        class_count(s, k, n - 1) + if token_class(s[n - 1]) == k {
            1int
        } else {
            0int
        }
    }
}

proof fn lemma_class_count_bound(s: Seq<char>, k: int, n: int)
    requires
        0 <= n <= s.len(),
    ensures
        0 <= class_count(s, k, n) <= n,
    decreases n,
{
    if n > 0 {
        lemma_class_count_bound(s, k, n - 1);
    }
}

/// Estimated tokens of a text: one per CJK character, one per 4.5 ASCII
/// letters (rounded up), one per 2 other non-whitespace characters (rounded
/// up); whitespace is free.
pub open spec fn token_estimate(s: Seq<char>) -> int {
    let n = s.len() as int;
    let cjk = class_count(s, 1, n);
    let eng = class_count(s, 2, n);
    let other = class_count(s, 3, n);
    cjk + (2 * eng + 8) / 9 + (other + 1) / 2
}

/// Estimate the token count of `text` (see `token_estimate`).
pub fn estimate_tokens_static(text: &str) -> (r: usize)
    ensures
        r == token_estimate(text@),
{
    let cs = chars_of(text);
    if cs.len() == 0 {
        return 0;
    }
    let mut chinese: usize = 0;
    let mut english: usize = 0;
    let mut other: usize = 0;
    let mut i: usize = 0;
    while i < cs.len()
        invariant
            i <= cs@.len(),
            cs@ == text@,
            chinese == class_count(cs@, 1, i as int),
            english == class_count(cs@, 2, i as int),
            other == class_count(cs@, 3, i as int),
            chinese + english + other <= i,
        decreases cs.len() - i,
    {
        let c = cs[i];
        if c == ' ' || c == '\t' || c == '\n' || c == '\x0C' || c == '\r' {
        } else if is_cjk_char(c) {
            chinese = chinese + 1;
        } else if ('a' <= c && c <= 'z') || ('A' <= c && c <= 'Z') {
            english = english + 1;
        } else {
            other = other + 1;
        }
        i = i + 1;
    }
    let english_tokens = english / 9 * 2 + (english % 9 * 2 + 8) / 9;
    let other_tokens = other / 2 + other % 2;
    assert(english_tokens == (2 * english + 8) / 9) by (nonlinear_arith)
        requires
            english_tokens == english / 9 * 2 + (english % 9 * 2 + 8) / 9,
    ;
    chinese + english_tokens + other_tokens
}

/// Per-message overhead for the role label.
pub open spec fn role_overhead(r: MessageRole) -> int {
    match r {
        MessageRole::System => 3,
        _ => 1,
    }
}

/// Estimated prompt tokens of the first `n` messages.
pub open spec fn messages_estimate(ms: Seq<ChatMessage>, n: int) -> int
    decreases n,
{
    if n <= 0 || n > ms.len() {
        0
    } else {
        messages_estimate(ms, n - 1) + token_estimate(ms[n - 1].content@) + role_overhead(
            ms[n - 1].role,
        )
    }
}

proof fn lemma_messages_estimate_mono(ms: Seq<ChatMessage>, a: int, b: int)
    requires
        0 <= a <= b <= ms.len(),
    ensures
        messages_estimate(ms, a) <= messages_estimate(ms, b),
    decreases b - a,
{
    if a < b {
        lemma_messages_estimate_mono(ms, a, b - 1);
        let s = ms[b - 1].content@;
        lemma_class_count_bound(s, 1, s.len() as int);
        lemma_class_count_bound(s, 2, s.len() as int);
        lemma_class_count_bound(s, 3, s.len() as int);
    }
}

proof fn lemma_messages_estimate_prefix(a: Seq<ChatMessage>, b: Seq<ChatMessage>, n: int)
    requires
        0 <= n <= a.len(),
    ensures
        messages_estimate(a + b, n) == messages_estimate(a, n),
    decreases n,
{
    if n > 0 {
        lemma_messages_estimate_prefix(a, b, n - 1);
        assert((a + b)[n - 1] == a[n - 1]);
    }
}

proof fn lemma_messages_estimate_suffix(a: Seq<ChatMessage>, b: Seq<ChatMessage>, n: int)
    requires
        0 <= n <= b.len(),
    ensures
        messages_estimate(a + b, a.len() + n) == messages_estimate(a, a.len() as int)
            + messages_estimate(b, n),
    decreases n,
{
    if n == 0 {
        lemma_messages_estimate_prefix(a, b, a.len() as int);
    } else {
        lemma_messages_estimate_suffix(a, b, n - 1);
        assert((a + b)[a.len() + n - 1] == b[n - 1]);
    }
}

/// The estimate of no messages is 0, and the estimate of two lists one after
/// the other is the sum of their estimates.
pub proof fn lemma_messages_estimate_additive(a: Seq<ChatMessage>, b: Seq<ChatMessage>)
    ensures
        messages_estimate(Seq::<ChatMessage>::empty(), 0) == 0,
        messages_estimate(a + b, (a + b).len() as int) == messages_estimate(a, a.len() as int)
            + messages_estimate(b, b.len() as int),
{
    lemma_messages_estimate_suffix(a, b, b.len() as int);
}

/// Estimate prompt tokens for a list of chat messages: each message's text
/// estimate plus its role overhead. The total must fit in a `usize`.
pub fn estimate_messages_tokens(messages: &[ChatMessage]) -> (r: usize)
    requires
        messages_estimate(messages@, messages@.len() as int) <= usize::MAX,
    ensures
        r == messages_estimate(messages@, messages@.len() as int),
{
    let mut total: usize = 0;
    let mut i: usize = 0;
    while i < messages.len()
        invariant
            i <= messages@.len(),
            total == messages_estimate(messages@, i as int),
            messages_estimate(messages@, messages@.len() as int) <= usize::MAX,
        decreases messages.len() - i,
    {
        proof {
            lemma_messages_estimate_mono(messages@, i + 1, messages@.len() as int);
        }
        let m = &messages[i];
        let overhead: usize = match m.role {
            MessageRole::System => 3,
            MessageRole::User => 1,
            MessageRole::Assistant => 1,
        };
        let e = estimate_tokens_static(m.content.as_str());
        total = total + e + overhead;
        i = i + 1;
    }
    total
}

} // verus!
