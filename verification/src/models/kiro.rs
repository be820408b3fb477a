//! Kiro API request and response models.

use vstd::prelude::*;
use crate::ids::new_uuid;
use crate::json::JsonValue;

verus! {

/// A Kiro conversation request.
pub struct KiroRequest {
    pub conversation_id: String,
    pub model_id: String,
    pub user_input_message: UserInputMessage,
    pub user_input_message_context: UserInputMessageContext,
    pub tool_configuration: Option<ToolConfiguration>,
}

/// The user's message of a turn.
pub struct UserInputMessage {
    pub content: Vec<ContentBlock>,
    pub images: Option<Vec<KiroImage>>,
}

/// The context sent with the user's message.
pub struct UserInputMessageContext {
    pub system: Option<Vec<SystemBlock>>,
    pub previous_turns: Vec<Turn>,
}

/// A block of message content.
pub enum ContentBlock {
    Text { text: String },
}

/// A block of system prompt.
pub struct SystemBlock {
    pub text: String,
}

/// An earlier exchange of the conversation.
pub struct Turn {
    pub user_input_message: UserInputMessage,
    pub assistant_response_message: AssistantResponseMessage,
}

/// The assistant's message: its content and the tools it called.
pub struct AssistantResponseMessage {
    pub content: Vec<ContentBlock>,
    pub tool_uses: Option<Vec<ToolUse>>,
}

/// An image attached to the user's message.
pub struct KiroImage {
    pub format: String,
    pub source: ImageSource,
}

/// The base64 bytes of an image.
pub struct ImageSource {
    pub bytes: String,
}

/// The tools offered to the model.
pub struct ToolConfiguration {
    pub tools: Vec<ToolSpec>,
}

/// One offered tool.
pub struct ToolSpec {
    pub tool_specification: ToolSpecification,
}

/// A tool's name, description and input schema.
pub struct ToolSpecification {
    pub name: String,
    pub description: String,
    pub input_schema: InputSchema,
}

/// A JSON schema.
pub struct InputSchema {
    pub json: JsonValue,
}

/// A tool call made by the model.
pub struct ToolUse {
    pub tool_use_id: String,
    pub name: String,
    pub input: JsonValue,
}

/// The result of a tool call.
pub struct ToolResult {
    pub content: Vec<ContentBlock>,
    pub status: String,
    pub tool_use_id: String,
}

/// A complete Kiro response.
pub struct KiroResponse {
    pub conversation_id: String,
    pub assistant_response_message: AssistantResponseMessage,
    pub usage: Option<KiroUsage>,
}

/// Token usage reported by Kiro.
pub struct KiroUsage {
    pub input_tokens: i32,
    pub output_tokens: i32,
}

/// An event of a Kiro response stream.
pub enum KiroStreamEvent {
    MessageStart { conversation_id: String },
    ContentBlockStart { index: i32, content_block: JsonValue },
    ContentBlockDelta { index: i32, delta: Delta },
    ContentBlockStop { index: i32 },
    MessageStop { usage: Option<KiroUsage> },
}

/// An increment of streamed content.
pub enum Delta {
    TextDelta { text: String },
    ThinkingDelta { thinking: String },
    ToolUseDelta { tool_use_id: String, name: String, input: String },
}

impl KiroRequest {
    /// A request in a fresh conversation (a random UUID) whose user message is
    /// `message` as one text block, with no system prompt, earlier turns,
    /// images or tools.
    pub fn new(model_id: String, message: String) -> (r: Self)
        ensures
            r.conversation_id@.len() == 36,
            r.model_id == model_id,
            r.user_input_message.content@.len() == 1,
            r.user_input_message.content@[0] == (ContentBlock::Text { text: message }),
            r.user_input_message.images is None,
            r.user_input_message_context.system is None,
            r.user_input_message_context.previous_turns@.len() == 0,
            r.tool_configuration is None,
    {
        let mut content = Vec::new();
        content.push(ContentBlock::Text { text: message });
        KiroRequest {
            conversation_id: new_uuid(),
            model_id,
            user_input_message: UserInputMessage { content, images: None },
            user_input_message_context: UserInputMessageContext { system: None, previous_turns: Vec::new() },
            tool_configuration: None,
        }
    }

    /// Sets the system prompt to one block holding `system`, unless it is empty.
    pub fn with_system(self, system: String) -> (r: Self)
        ensures
            system@.len() == 0 ==> r == self,
            system@.len() > 0 ==> r == (KiroRequest {
                user_input_message_context: UserInputMessageContext {
                    system: r.user_input_message_context.system,
                    ..self.user_input_message_context
                },
                ..self
            }) && (r.user_input_message_context.system matches Some(b) && b@.len() == 1 && b@[0] == (SystemBlock { text: system })),
    {
        let mut s = self;
        if !system.as_str().is_empty() {
            let mut blocks = Vec::new();
            blocks.push(SystemBlock { text: system });
            s.user_input_message_context.system = Some(blocks);
        }
        s
    }

    /// Offers `tools` to the model, unless there are none.
    pub fn with_tools(self, tools: Vec<ToolSpec>) -> (r: Self)
        ensures
            tools@.len() == 0 ==> r == self,
            tools@.len() > 0 ==> r == (KiroRequest { tool_configuration: Some(ToolConfiguration { tools }), ..self }),
    {
        let mut s = self;
        if tools.len() > 0 {
            s.tool_configuration = Some(ToolConfiguration { tools });
        }
        s
    }

    /// Replaces the earlier turns of the conversation.
    pub fn with_turns(self, turns: Vec<Turn>) -> (r: Self)
        ensures
            r == (KiroRequest {
                user_input_message_context: UserInputMessageContext {
                    previous_turns: turns,
                    ..self.user_input_message_context
                },
                ..self
            }),
    {
        let mut s = self;
        s.user_input_message_context.previous_turns = turns;
        s
    }

    /// Attaches `images` to the user message, unless there are none.
    pub fn with_images(self, images: Vec<KiroImage>) -> (r: Self)
        ensures
            images@.len() == 0 ==> r == self,
            images@.len() > 0 ==> r == (KiroRequest {
                user_input_message: UserInputMessage { images: Some(images), ..self.user_input_message },
                ..self
            }),
    {
        let mut s = self;
        if images.len() > 0 {
            s.user_input_message.images = Some(images);
        }
        s
    }
}

} // verus!
