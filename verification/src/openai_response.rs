//! The OpenAI v1 chat completion responses: the whole object and the
//! streamed chunks. Log probabilities, floating point on the wire, are
//! held as `f64` bit patterns.

use vstd::prelude::*;

verus! {

/// A complete chat completion.
#[derive(Debug, PartialEq, Clone)]
pub struct ChatCompletionObjectResponse {
    pub id: String,
    pub choices: Vec<ChatCompletionObjectResponseChoice>,
    /// Unix time of creation, in seconds.
    pub created: u64,
    pub model: String,
    pub system_fingerprint: Option<String>,
    /// Always `chat.completion`.
    pub object: String,
    pub usage: ChatCompletionResponseUsage,
    pub service_tier: Option<String>,
}

/// One choice of a complete chat completion.
#[derive(Debug, PartialEq, Clone)]
pub struct ChatCompletionObjectResponseChoice {
    /// `stop`, `length`, `content_filter`, `tool_calls` or `function_call`.
    pub finish_reason: String,
    pub index: u64,
    pub message: ChatCompletionObjectResponseChoiceMessage,
    pub logprobs: Option<ChatCompletionResponseChoiceLogprob>,
}

/// The message of a choice.
#[derive(Debug, PartialEq, Clone)]
pub struct ChatCompletionObjectResponseChoiceMessage {
    pub content: Option<String>,
    pub role: String,
    pub tool_calls: Option<Vec<ChatCompletionObjectResponseChoiceToolCall>>,
}

/// A tool call the model made.
#[derive(Debug, PartialEq, Clone)]
pub enum ChatCompletionObjectResponseChoiceToolCall {
    FunctionTool { id: String, function: ChatCompletionResponseChoiceFunctionToolCall },
}

/// One streamed chunk of a chat completion.
#[derive(Debug, PartialEq, Clone)]
pub struct ChatCompletionChunkResponse {
    pub id: String,
    pub choices: Vec<ChatCompletionChunkResponseChoice>,
    pub created: u64,
    pub model: String,
    pub system_fingerprint: Option<String>,
    /// Always `chat.completion.chunk`.
    pub object: String,
    /// Present on the last chunk when the caller asked for usage.
    pub usage: Option<ChatCompletionResponseUsage>,
    pub service_tier: Option<String>,
}

/// One choice of a streamed chunk.
#[derive(Debug, PartialEq, Clone)]
pub struct ChatCompletionChunkResponseChoice {
    pub finish_reason: Option<String>,
    pub index: u64,
    pub delta: ChatCompletionChunkResponseChoiceDelta,
    pub logprobs: Option<ChatCompletionResponseChoiceLogprob>,
}

/// What a chunk adds to a choice.
#[derive(Debug, PartialEq, Clone)]
pub struct ChatCompletionChunkResponseChoiceDelta {
    pub content: Option<String>,
    pub role: Option<String>,
    pub tool_calls: Option<Vec<ChatCompletionChunkResponseChoiceToolCall>>,
}

/// A streamed piece of a tool call.
#[derive(Debug, PartialEq, Clone)]
pub enum ChatCompletionChunkResponseChoiceToolCall {
    FunctionTool {
        index: u64,
        id: String,
        function: ChatCompletionResponseChoiceFunctionToolCall,
    },
}

/// Token counts of a request.
#[derive(Debug, PartialEq, Eq, Clone, Copy, Structural)]
pub struct ChatCompletionResponseUsage {
    pub completion_tokens: u64,
    pub prompt_tokens: u64,
    pub total_tokens: u64,
}

/// Log probability information of a choice.
#[derive(Debug, PartialEq, Clone)]
pub struct ChatCompletionResponseChoiceLogprob {
    pub content: Option<Vec<ChatCompletionResponseChoiceLogprobContent>>,
}

/// The log probability of one output token.
#[derive(Debug, PartialEq, Clone)]
pub struct ChatCompletionResponseChoiceLogprobContent {
    pub token: String,
    /// As `f64` bits.
    pub logprob: u64,
    pub bytes: Option<Vec<u8>>,
    pub top_logprobs: Vec<ChatCompletionResponseChoiceTopLogprobContent>,
}

/// One of the most likely tokens at a position.
#[derive(Debug, PartialEq, Clone)]
pub struct ChatCompletionResponseChoiceTopLogprobContent {
    pub token: String,
    /// As `f64` bits.
    pub logprob: u64,
    pub bytes: Option<Vec<u8>>,
}

/// The function of a tool call: its name and its arguments as JSON text.
#[derive(Debug, PartialEq, Clone)]
pub struct ChatCompletionResponseChoiceFunctionToolCall {
    pub name: String,
    pub arguments: String,
}

} // verus!
