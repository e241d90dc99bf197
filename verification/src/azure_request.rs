//! The Azure OpenAI chat completion request of API version 2024-02-01.
//!
//! Floating point sampling parameters are held as `f64` bit patterns, as in
//! the OpenAI request.

use vstd::prelude::*;
use std::collections::HashMap;

verus! {

/// A chat completion request to an Azure OpenAI deployment. The deployment
/// names the model, so the request carries none.
#[derive(Debug, PartialEq, Clone)]
pub struct ChatCompletionRequest {
    pub messages: Vec<ChatCompletionMessage>,
    pub temperature: Option<u64>,
    pub top_p: Option<u64>,
    pub stream: Option<bool>,
    pub max_tokens: Option<u64>,
    pub presence_penalty: Option<u64>,
    pub frequency_penalty: Option<u64>,
    pub logit_bias: Option<HashMap<String, i32>>,
    pub n: Option<u64>,
    pub seed: Option<i64>,
    pub user: Option<String>,
    pub response_format: Option<serde_json::Value>,
    pub tools: Option<Vec<ChatCompletionTool>>,
    pub tool_choice: Option<ChatCompletionToolChoice>,
    pub stop: Option<ChatCompletionStop>,
    /// Azure "on your data" sources.
    pub data_sources: Option<Vec<AzureChatExtensionConfiguration>>,
}

/// A message of the conversation, by the role of its author.
#[derive(Debug, PartialEq, Clone)]
pub enum ChatCompletionMessage {
    SystemMessage { content: String },
    UserMessage { content: UserMessageContent },
    AssistantMessage {
        content: Option<String>,
        tool_calls: Option<Vec<AssistantToolCall>>,
        /// Citations and intent that Azure attaches to answers drawn from
        /// data sources.
        context: Option<serde_json::Value>,
    },
    ToolMessage { content: String, tool_call_id: String },
}

/// The content of a user message: plain text or a list of parts.
#[derive(Debug, PartialEq, Clone)]
pub enum UserMessageContent {
    TextContent(String),
    ArrayContentParts(Vec<UserMessageContentPart>),
}

/// One part of a user message; an image is given by its URL alone.
#[derive(Debug, PartialEq, Clone)]
pub enum UserMessageContentPart {
    TextContentPart { text: String },
    ImageContentPart { image_url: String },
}

/// A tool call made by the assistant earlier in the conversation.
#[derive(Debug, PartialEq, Clone)]
pub struct AssistantToolCall {
    pub id: String,
    /// Serialised as `type`.
    pub kind: AssistantToolCallType,
    pub function: AssistantToolCallFunction,
}

/// The kind of a tool call; only functions exist.
#[derive(Debug, PartialEq, Clone, Copy, Eq, Structural)]
pub enum AssistantToolCallType {
    FunctionType,
}

/// The function an assistant tool call invoked.
#[derive(Debug, PartialEq, Clone)]
pub struct AssistantToolCallFunction {
    pub name: String,
    pub arguments: String,
}

/// A tool offered to the model.
#[derive(Debug, PartialEq, Clone)]
pub enum ChatCompletionTool {
    FunctionTool { function: ChatCompletionToolFunction },
}

/// A function offered to the model.
#[derive(Debug, PartialEq, Clone)]
pub struct ChatCompletionToolFunction {
    pub name: String,
    pub description: Option<String>,
    pub parameters: Option<serde_json::Value>,
}

/// `none`, `auto`, or a named function.
#[derive(Debug, PartialEq, Clone)]
pub enum ChatCompletionToolChoice {
    StringChoice(String),
    FunctionChoice(ChatCompletionToolChoiceObject),
}

/// A tool the model must call.
#[derive(Debug, PartialEq, Clone)]
pub enum ChatCompletionToolChoiceObject {
    FunctionTool { function: ChatCompletionToolChoiceFunction },
}

/// The name of the function the model must call.
#[derive(Debug, PartialEq, Clone)]
pub struct ChatCompletionToolChoiceFunction {
    pub name: String,
}

/// One stop sequence or several.
#[derive(Debug, PartialEq, Clone)]
pub enum ChatCompletionStop {
    StringStop(String),
    ArrayStop(Vec<String>),
}

/// An Azure "on your data" source: its kind and its parameters.
#[derive(Debug, PartialEq, Clone)]
pub struct AzureChatExtensionConfiguration {
    /// Serialised as `type`.
    pub kind: String,
    pub parameters: serde_json::Value,
}

} // verus!
