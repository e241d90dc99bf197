//! The OpenAI v1 chat completion request, as the gateway receives it.
//!
//! Sampling parameters that the wire format carries as floating point
//! numbers are held here as the bit patterns of their `f64` values
//! (`f64::to_bits`); the gateway only copies them.

use vstd::prelude::*;
use std::collections::HashMap;

verus! {

/// A chat completion request.
#[derive(Debug, PartialEq, Clone)]
pub struct ChatCompletionRequest {
    /// The model the caller asks for.
    pub model: String,
    /// The conversation so far.
    pub messages: Vec<ChatCompletionMessage>,
    /// How many choices to generate.
    pub n: Option<u64>,
    /// Frequency penalty, as `f64` bits.
    pub frequency_penalty: Option<u64>,
    /// Sampling temperature, as `f64` bits.
    pub temperature: Option<u64>,
    /// Whether to return log probabilities of the output tokens.
    pub logprobs: Option<bool>,
    /// How many most likely tokens to return at each position.
    pub top_logprobs: Option<i64>,
    /// Upper bound on generated tokens.
    pub max_tokens: Option<u64>,
    /// Presence penalty, as `f64` bits.
    pub presence_penalty: Option<u64>,
    /// Nucleus sampling mass, as `f64` bits.
    pub top_p: Option<u64>,
    /// Whether partial deltas are streamed as server-sent events.
    pub stream: Option<bool>,
    /// Sequences at which generation stops.
    pub stop: Option<ChatCompletionStop>,
    /// An identifier of the end user.
    pub user: Option<String>,
    /// Seed for best-effort deterministic sampling.
    pub seed: Option<i64>,
    /// The requested output format, passed through.
    pub response_format: Option<serde_json::Value>,
    /// Bias per token id.
    pub logit_bias: Option<HashMap<String, i32>>,
    /// Tools the model may call.
    pub tools: Option<Vec<ChatCompletionTool>>,
    /// Which tool, if any, the model must call.
    pub tool_choice: Option<ChatCompletionToolChoice>,
}

/// One stop sequence or several.
#[derive(Debug, PartialEq, Clone)]
pub enum ChatCompletionStop {
    StringStop(String),
    ArrayStop(Vec<String>),
}

/// A message of the conversation, by the role of its author.
#[derive(Debug, PartialEq, Clone)]
pub enum ChatCompletionMessage {
    SystemMessage { content: String, name: Option<String> },
    UserMessage { name: Option<String>, content: UserMessageContent },
    AssistantMessage {
        content: Option<String>,
        name: Option<String>,
        tool_calls: Option<Vec<AssistantToolCall>>,
    },
    ToolMessage { content: String, tool_call_id: String },
}

/// The content of a user message: plain text or a list of parts.
#[derive(Debug, PartialEq, Clone)]
pub enum UserMessageContent {
    TextContent(String),
    ArrayContentParts(Vec<UserMessageContentPart>),
}

/// One part of a user message.
#[derive(Debug, PartialEq, Clone)]
pub enum UserMessageContentPart {
    TextContentPart { text: String },
    ImageContentPart { image_url: ImageUrlContentPart },
}

/// An image given by URL.
#[derive(Debug, PartialEq, Clone)]
pub struct ImageUrlContentPart {
    pub url: String,
    pub detail: Option<String>,
}

/// A tool call made by the assistant earlier in the conversation.
#[derive(Debug, PartialEq, Clone)]
pub struct AssistantToolCall {
    pub id: String,
    /// Serialised as `type`.
    pub kind: AssistantToolCallType,
    pub function: AssistantToolCallFunction,
}

/// The kind of a tool call; only functions exist.
#[derive(Debug, PartialEq, Clone, Copy, Eq, Structural)]
pub enum AssistantToolCallType {
    FunctionType,
}

/// The function an assistant tool call invoked.
#[derive(Debug, PartialEq, Clone)]
pub struct AssistantToolCallFunction {
    pub name: String,
    pub arguments: String,
}

/// A tool offered to the model.
#[derive(Debug, PartialEq, Clone)]
pub enum ChatCompletionTool {
    FunctionTool { function: ChatCompletionToolFunction },
}

/// A function offered to the model.
#[derive(Debug, PartialEq, Clone)]
pub struct ChatCompletionToolFunction {
    pub name: String,
    pub description: Option<String>,
    pub parameters: Option<serde_json::Value>,
}

/// `none`, `auto`, `required`, or a named function.
#[derive(Debug, PartialEq, Clone)]
pub enum ChatCompletionToolChoice {
    StringChoice(String),
    FunctionChoice(ChatCompletionToolChoiceObject),
}

/// A tool the model must call.
#[derive(Debug, PartialEq, Clone)]
pub enum ChatCompletionToolChoiceObject {
    FunctionTool { function: ChatCompletionToolChoiceFunction },
}

/// The name of the function the model must call.
#[derive(Debug, PartialEq, Clone)]
pub struct ChatCompletionToolChoiceFunction {
    pub name: String,
}

} // verus!
