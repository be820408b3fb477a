//! Token estimates: about four bytes per token.

use vstd::prelude::*;
use vstd::utf8::encode_utf8;
use crate::json::{json_text, JsonValue};
use crate::models::openai::ChatMessage;

verus! {

/// The token estimate for a text of `byte_len` UTF-8 bytes: zero for an empty
/// text, else the byte length divided by four, rounded up, at most `i32::MAX`.
pub open spec fn token_estimate(byte_len: nat) -> int {
    if byte_len == 0 {
        0
    } else if (byte_len + 3) / 4 > i32::MAX {
        i32::MAX as int
    } else {
        ((byte_len + 3) / 4) as int
    }
}

/// Approximate token count of a text (`ceil(len / 4)` on its byte length,
/// saturated to `i32`). The correction flag is accepted and has no effect.
pub fn count_tokens(text: &str, _apply_correction: bool) -> (n: i32)
    ensures
        n == token_estimate(text.len() as nat),
{
    let len = text.len();
    if len == 0 {
        return 0;
    }
    let q = len / 4 + if len % 4 == 0 {
        0
    } else {
        1
    };
    assert(q == (len + 3) / 4);
    if q > 2147483647usize {
        i32::MAX
    } else {
        q as i32
    }
}

/// The estimate for a text, by its UTF-8 length.
pub open spec fn text_tokens(s: Seq<char>) -> int {
    token_estimate((encode_utf8(s).len() as usize) as nat)
}

/// The estimate for one message: four for the message, then its role, its
/// content (a string as is, anything else as compact JSON) and its name.
pub open spec fn message_tokens(m: ChatMessage) -> int {
    4 + text_tokens(m.role@) + match m.content {
        Some(JsonValue::Str(s)) => text_tokens(s@),
        Some(v) => text_tokens(json_text(v.model())),
        None => 0,
    } + match m.name {
        Some(n) => text_tokens(n@),
        None => 0,
    }
}

/// The estimate for messages, without the final overhead.
pub open spec fn messages_tokens(ms: Seq<ChatMessage>) -> int
    decreases ms.len(),
{
    if ms.len() == 0 {
        0
    } else {
        messages_tokens(ms.drop_last()) + message_tokens(ms.last())
    }
}

proof fn lemma_messages_tokens_grow(ms: Seq<ChatMessage>, i: int)
    requires
        0 <= i <= ms.len(),
    ensures
        0 <= messages_tokens(ms.take(i)) <= messages_tokens(ms),
    decreases ms.len() - i,
{
    if i < ms.len() {
        lemma_messages_tokens_grow(ms, i + 1);
        assert(ms.take(i + 1).drop_last() =~= ms.take(i));
    } else {
        assert(ms.take(i) =~= ms);
    }
    lemma_messages_tokens_nonneg(ms.take(i));
}

proof fn lemma_messages_tokens_nonneg(ms: Seq<ChatMessage>)
    ensures
        messages_tokens(ms) >= 0,
    decreases ms.len(),
{
    if ms.len() > 0 {
        lemma_messages_tokens_nonneg(ms.drop_last());
    }
}

/// Approximate token count of chat messages: the estimate of each message
/// (see [`message_tokens`]) and three more for the conversation.
#[verifier::loop_isolation(false)]
pub fn count_message_tokens(messages: &[ChatMessage]) -> (n: i32)
    requires
        messages_tokens(messages@) + 3 <= i32::MAX,
    ensures
        n == messages_tokens(messages@) + 3,
{
    let mut total: i32 = 0;
    let mut i: usize = 0;
    assert(messages@.take(0) =~= Seq::<ChatMessage>::empty());
    while i < messages.len()
        invariant
            i <= messages.len(),
            total == messages_tokens(messages@.take(i as int)),
        decreases messages.len() - i,
    {
        proof {
            lemma_messages_tokens_grow(messages@, i + 1);
            assert(messages@.take(i + 1).drop_last() =~= messages@.take(i as int));
        }
        let m = &messages[i];
        let role = count_tokens(m.role.as_str(), false);
        let content = match &m.content {
            Some(JsonValue::Str(s)) => count_tokens(s.as_str(), false),
            Some(v) => count_tokens(v.to_text().as_str(), false),
            None => 0,
        };
        let name = match &m.name {
            Some(n) => count_tokens(n.as_str(), false),
            None => 0,
        };
        total = total + 4 + role + content + name;
        i += 1;
    }
    assert(messages@.take(messages.len() as int) =~= messages@);
    total + 3
}

} // verus!
