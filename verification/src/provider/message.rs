//! What is asked of a language model.

use crate::json::Json;
use vstd::prelude::*;

verus! {

/// Who a message is from.
#[derive(Clone, Copy, Debug, PartialEq, Eq, Structural)]
pub enum Role {
    System,
    User,
    Assistant,
    Tool,
}

/// One part of the content of a message.
#[derive(Debug, PartialEq, Eq)]
pub enum ContentPart {
    Text { text: String },
    Image { url: String },
    ToolUse { id: String, name: String, input: Json },
    ToolResult { tool_use_id: String, content: String, is_error: Option<bool> },
}

/// The content of a message.
#[derive(Debug, PartialEq, Eq)]
pub enum MessageContent {
    Text(String),
    Parts(Vec<ContentPart>),
}

/// One message of a conversation.
#[derive(Debug, PartialEq, Eq)]
pub struct Message {
    pub role: Role,
    pub content: MessageContent,
}

/// A tool that the model may call; `parameters` is the JSON schema of its input.
#[derive(Debug, PartialEq, Eq)]
pub struct ToolDef {
    pub name: String,
    pub description: String,
    pub parameters: Json,
}

/// A request to a language model.
///
/// `temperature` is the JSON value under which it is sent, a number.
#[derive(Debug, PartialEq, Eq)]
pub struct LlmRequest {
    pub model: String,
    pub messages: Vec<Message>,
    pub tools: Vec<ToolDef>,
    pub system: Option<String>,
    pub max_tokens: Option<u32>,
    pub temperature: Option<Json>,
}

} // verus!
