//! OpenAI chat completion models.

use vstd::prelude::*;
use crate::json::JsonValue;

verus! {

/// A chat message.
pub struct ChatMessage {
    pub role: String,
    pub content: Option<JsonValue>,
    pub name: Option<String>,
    pub tool_calls: Option<Vec<ToolCall>>,
    pub tool_call_id: Option<String>,
}

/// A tool call of an assistant message.
pub struct ToolCall {
    pub id: String,
    pub tool_type: String,
    pub function: FunctionCall,
}

/// The function a tool call invokes, with its JSON arguments as text.
pub struct FunctionCall {
    pub name: String,
    pub arguments: String,
}

/// One choice of a chat completion.
pub struct ChatCompletionChoice {
    pub index: i32,
    pub message: ChatMessage,
    pub finish_reason: Option<String>,
    pub logprobs: Option<JsonValue>,
}

/// Token usage of a chat completion.
pub struct ChatCompletionUsage {
    pub prompt_tokens: i32,
    pub completion_tokens: i32,
    pub total_tokens: i32,
    pub prompt_tokens_details: Option<JsonValue>,
}

/// A complete chat completion.
pub struct ChatCompletionResponse {
    pub id: String,
    pub object: String,
    pub created: i64,
    pub model: String,
    pub choices: Vec<ChatCompletionChoice>,
    pub usage: Option<ChatCompletionUsage>,
    pub system_fingerprint: Option<String>,
}

} // verus!
