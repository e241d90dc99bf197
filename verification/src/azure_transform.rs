//! Turning an OpenAI v1 chat completion request into an Azure OpenAI
//! 2024-02-01 request.
//!
//! Azure names the model by its deployment, so the model of the request is
//! not sent; it is handed back as the transformation's loss. Message
//! author names and image detail levels have no Azure counterpart and are
//! dropped.

use vstd::prelude::*;
use std::collections::HashMap;
use crate::json::{clone_json_option, clone_string_option, clone_strings};
use crate::openai_request::{
    AssistantToolCall as OpenAiToolCall,
    AssistantToolCallType as OpenAiToolCallType,
    ChatCompletionMessage as OpenAiMessage,
    ChatCompletionRequest as OpenAiRequest,
    ChatCompletionStop as OpenAiStop,
    ChatCompletionTool as OpenAiTool,
    ChatCompletionToolChoice as OpenAiToolChoice,
    ChatCompletionToolChoiceObject as OpenAiToolChoiceObject,
    UserMessageContent as OpenAiContent,
    UserMessageContentPart as OpenAiPart,
};
use crate::azure_request::{
    AssistantToolCall as AzureToolCall,
    AssistantToolCallFunction as AzureToolCallFunction,
    AssistantToolCallType as AzureToolCallType,
    AzureChatExtensionConfiguration,
    ChatCompletionMessage as AzureMessage,
    ChatCompletionRequest as AzureRequest,
    ChatCompletionStop as AzureStop,
    ChatCompletionTool as AzureTool,
    ChatCompletionToolChoice as AzureToolChoice,
    ChatCompletionToolChoiceFunction as AzureToolChoiceFunction,
    ChatCompletionToolChoiceObject as AzureToolChoiceObject,
    ChatCompletionToolFunction as AzureToolFunction,
    UserMessageContent as AzureContent,
    UserMessageContentPart as AzurePart,
};

verus! {

/// What the Azure request cannot carry.
pub struct TransformationLoss {
    pub model: String,
}

/// What the Azure request needs beyond the OpenAI request.
pub struct TransformationContext {
    pub data_sources: Option<Vec<AzureChatExtensionConfiguration>>,
}

/// The Azure request and what it lost.
pub struct Transformation {
    pub request: AzureRequest,
    pub loss: TransformationLoss,
}

/// `b` is the Azure form of the content part `a`.
pub open spec fn part_to_azure(a: OpenAiPart, b: AzurePart) -> bool {
    match (a, b) {
        (OpenAiPart::TextContentPart { text: x }, AzurePart::TextContentPart { text: y }) => y == x,
        (OpenAiPart::ImageContentPart { image_url: u }, AzurePart::ImageContentPart {
            image_url: v,
        }) => v == u.url,
        _ => false,
    }
}

/// `b` is the Azure form of the user message content `a`.
pub open spec fn content_to_azure(a: OpenAiContent, b: AzureContent) -> bool {
    match (a, b) {
        (OpenAiContent::TextContent(x), AzureContent::TextContent(y)) => y == x,
        (OpenAiContent::ArrayContentParts(ps), AzureContent::ArrayContentParts(qs)) => {
            &&& qs@.len() == ps@.len()
            &&& forall|i: int| 0 <= i < ps@.len() ==> part_to_azure(#[trigger] ps@[i], qs@[i])
        },
        _ => false,
    }
}

/// `b` is the Azure form of the assistant tool call `a`.
pub open spec fn call_to_azure(a: OpenAiToolCall, b: AzureToolCall) -> bool {
    &&& b.id == a.id
    &&& b.kind == AzureToolCallType::FunctionType
    &&& b.function.name == a.function.name
    &&& b.function.arguments == a.function.arguments
}

/// `b` is the Azure form of the optional tool call list `a`.
pub open spec fn calls_to_azure(a: Option<Vec<OpenAiToolCall>>, b: Option<Vec<AzureToolCall>>) -> bool {
    match (a, b) {
        (None, None) => true,
        (Some(v), Some(w)) => {
            &&& w@.len() == v@.len()
            &&& forall|i: int| 0 <= i < v@.len() ==> call_to_azure(#[trigger] v@[i], w@[i])
        },
        _ => false,
    }
}

/// `b` is the Azure form of the message `a`.
pub open spec fn message_to_azure(a: OpenAiMessage, b: AzureMessage) -> bool {
    match (a, b) {
        (OpenAiMessage::SystemMessage { content: x, .. }, AzureMessage::SystemMessage {
            content: y,
        }) => y == x,
        (OpenAiMessage::UserMessage { content: x, .. }, AzureMessage::UserMessage { content: y }) =>
            content_to_azure(x, y),
        (
            OpenAiMessage::AssistantMessage { content: x, tool_calls: c, .. },
            AzureMessage::AssistantMessage { content: y, tool_calls: d, context },
        ) => y == x && calls_to_azure(c, d) && context is None,
        (
            OpenAiMessage::ToolMessage { content: x, tool_call_id: i },
            AzureMessage::ToolMessage { content: y, tool_call_id: j },
        ) => y == x && j == i,
        _ => false,
    }
}

/// `b` is the Azure form of the tool `a`.
pub open spec fn tool_to_azure(a: OpenAiTool, b: AzureTool) -> bool {
    match (a, b) {
        (OpenAiTool::FunctionTool { function: f }, AzureTool::FunctionTool { function: g }) => {
            &&& g.name == f.name
            &&& g.description == f.description
            &&& g.parameters == f.parameters
        },
    }
}

/// `b` is the Azure form of the optional tool list `a`.
pub open spec fn tools_to_azure(a: Option<Vec<OpenAiTool>>, b: Option<Vec<AzureTool>>) -> bool {
    match (a, b) {
        (None, None) => true,
        (Some(v), Some(w)) => {
            &&& w@.len() == v@.len()
            &&& forall|i: int| 0 <= i < v@.len() ==> tool_to_azure(#[trigger] v@[i], w@[i])
        },
        _ => false,
    }
}

/// `b` is the Azure form of the tool choice `a`.
pub open spec fn choice_to_azure(a: OpenAiToolChoice, b: AzureToolChoice) -> bool {
    match (a, b) {
        (OpenAiToolChoice::StringChoice(x), AzureToolChoice::StringChoice(y)) => y == x,
        (
            OpenAiToolChoice::FunctionChoice(OpenAiToolChoiceObject::FunctionTool { function: f }),
            AzureToolChoice::FunctionChoice(AzureToolChoiceObject::FunctionTool { function: g }),
        ) => g.name == f.name,
        _ => false,
    }
}

/// `b` is the Azure form of the stop sequences `a`.
pub open spec fn stop_to_azure(a: OpenAiStop, b: AzureStop) -> bool {
    match (a, b) {
        (OpenAiStop::StringStop(x), AzureStop::StringStop(y)) => y == x,
        (OpenAiStop::ArrayStop(x), AzureStop::ArrayStop(y)) => y@ == x@,
        _ => false,
    }
}

/// Two optional token bias tables with the same entries.
pub open spec fn same_bias(a: Option<HashMap<String, i32>>, b: Option<HashMap<String, i32>>) -> bool {
    match (a, b) {
        (None, None) => true,
        (Some(x), Some(y)) => y@ == x@,
        _ => false,
    }
}

/// `r` is the Azure request made of `q` with the data sources `ds`: every
/// message, tool, tool choice and stop in its Azure form, the scalar
/// parameters, user, response format and token bias copied.
pub open spec fn request_to_azure(
    q: OpenAiRequest,
    ds: Option<Vec<AzureChatExtensionConfiguration>>,
    r: AzureRequest,
) -> bool {
    &&& r.messages@.len() == q.messages@.len()
    &&& forall|i: int|
        0 <= i < q.messages@.len() ==> message_to_azure(#[trigger] q.messages@[i], r.messages@[i])
    &&& r.temperature == q.temperature
    &&& r.top_p == q.top_p
    &&& r.stream == q.stream
    &&& r.max_tokens == q.max_tokens
    &&& r.presence_penalty == q.presence_penalty
    &&& r.frequency_penalty == q.frequency_penalty
    &&& same_bias(q.logit_bias, r.logit_bias)
    &&& r.n == q.n
    &&& r.seed == q.seed
    &&& r.user == q.user
    &&& r.response_format == q.response_format
    &&& tools_to_azure(q.tools, r.tools)
    &&& match (q.tool_choice, r.tool_choice) {
        (None, None) => true,
        (Some(a), Some(b)) => choice_to_azure(a, b),
        _ => false,
    }
    &&& match (q.stop, r.stop) {
        (None, None) => true,
        (Some(a), Some(b)) => stop_to_azure(a, b),
        _ => false,
    }
    &&& r.data_sources == ds
}

fn part_of(p: &OpenAiPart) -> (r: AzurePart)
    ensures
        part_to_azure(*p, r),
{
    match p {
        OpenAiPart::TextContentPart { text } => AzurePart::TextContentPart { text: text.clone() },
        OpenAiPart::ImageContentPart { image_url } => AzurePart::ImageContentPart {
            image_url: image_url.url.clone(),
        },
    }
}

fn content_of(c: &OpenAiContent) -> (r: AzureContent)
    ensures
        content_to_azure(*c, r),
{
    match c {
        OpenAiContent::TextContent(value) => AzureContent::TextContent(value.clone()),
        OpenAiContent::ArrayContentParts(parts) => {
            let mut out: Vec<AzurePart> = Vec::new();
            let mut i: usize = 0;
            while i < parts.len()
                invariant
                    i <= parts@.len(),
                    out@.len() == i,
                    forall|j: int| 0 <= j < i ==> part_to_azure(#[trigger] parts@[j], out@[j]),
                decreases parts@.len() - i,
            {
                out.push(part_of(&parts[i]));
                i = i + 1;
            }
            AzureContent::ArrayContentParts(out)
        },
    }
}

fn call_of(c: &OpenAiToolCall) -> (r: AzureToolCall)
    ensures
        call_to_azure(*c, r),
{
    AzureToolCall {
        id: c.id.clone(),
        kind: match c.kind {
            OpenAiToolCallType::FunctionType => AzureToolCallType::FunctionType,
        },
        function: AzureToolCallFunction {
            name: c.function.name.clone(),
            arguments: c.function.arguments.clone(),
        },
    }
}

fn calls_of(calls: &Option<Vec<OpenAiToolCall>>) -> (r: Option<Vec<AzureToolCall>>)
    ensures
        calls_to_azure(*calls, r),
{
    match calls {
        None => None,
        Some(v) => {
            let mut out: Vec<AzureToolCall> = Vec::new();
            let mut i: usize = 0;
            while i < v.len()
                invariant
                    i <= v@.len(),
                    out@.len() == i,
                    forall|j: int| 0 <= j < i ==> call_to_azure(#[trigger] v@[j], out@[j]),
                decreases v@.len() - i,
            {
                out.push(call_of(&v[i]));
                i = i + 1;
            }
            Some(out)
        },
    }
}

fn message_of(m: &OpenAiMessage) -> (r: AzureMessage)
    ensures
        message_to_azure(*m, r),
{
    match m {
        OpenAiMessage::SystemMessage { content, .. } => AzureMessage::SystemMessage {
            content: content.clone(),
        },
        OpenAiMessage::UserMessage { content, .. } => AzureMessage::UserMessage {
            content: content_of(content),
        },
        OpenAiMessage::AssistantMessage { content, tool_calls, .. } => AzureMessage::AssistantMessage {
            content: clone_string_option(content),
            tool_calls: calls_of(tool_calls),
            context: None,
        },
        OpenAiMessage::ToolMessage { content, tool_call_id } => AzureMessage::ToolMessage {
            content: content.clone(),
            tool_call_id: tool_call_id.clone(),
        },
    }
}

fn tool_of(t: &OpenAiTool) -> (r: AzureTool)
    ensures
        tool_to_azure(*t, r),
{
    match t {
        OpenAiTool::FunctionTool { function } => AzureTool::FunctionTool {
            function: AzureToolFunction {
                name: function.name.clone(),
                description: clone_string_option(&function.description),
                parameters: clone_json_option(&function.parameters),
            },
        },
    }
}

fn tools_of(tools: &Option<Vec<OpenAiTool>>) -> (r: Option<Vec<AzureTool>>)
    ensures
        tools_to_azure(*tools, r),
{
    match tools {
        None => None,
        Some(v) => {
            let mut out: Vec<AzureTool> = Vec::new();
            let mut i: usize = 0;
            while i < v.len()
                invariant
                    i <= v@.len(),
                    out@.len() == i,
                    forall|j: int| 0 <= j < i ==> tool_to_azure(#[trigger] v@[j], out@[j]),
                decreases v@.len() - i,
            {
                out.push(tool_of(&v[i]));
                i = i + 1;
            }
            Some(out)
        },
    }
}

fn choice_of(c: &OpenAiToolChoice) -> (r: AzureToolChoice)
    ensures
        choice_to_azure(*c, r),
{
    match c {
        OpenAiToolChoice::StringChoice(v) => AzureToolChoice::StringChoice(v.clone()),
        OpenAiToolChoice::FunctionChoice(OpenAiToolChoiceObject::FunctionTool { function }) =>
            AzureToolChoice::FunctionChoice(
            AzureToolChoiceObject::FunctionTool {
                function: AzureToolChoiceFunction { name: function.name.clone() },
            },
        ),
    }
}

fn stop_of(s: &OpenAiStop) -> (r: AzureStop)
    ensures
        stop_to_azure(*s, r),
{
    match s {
        OpenAiStop::StringStop(v) => AzureStop::StringStop(v.clone()),
        OpenAiStop::ArrayStop(v) => AzureStop::ArrayStop(clone_strings(v)),
    }
}

fn bias_of(b: &Option<HashMap<String, i32>>) -> (r: Option<HashMap<String, i32>>)
    ensures
        same_bias(*b, r),
{
    match b {
        None => None,
        Some(m) => Some(m.clone()),
    }
}

impl OpenAiRequest {
    /// The Azure OpenAI 2024-02-01 form of this request, with the data
    /// sources of `context`; the model goes into the loss.
    pub fn to_azure_v2024_02_01(&self, context: TransformationContext) -> (t: Transformation)
        ensures
            request_to_azure(*self, context.data_sources, t.request),
            t.loss.model == self.model,
    {
        let mut messages: Vec<AzureMessage> = Vec::new();
        let mut i: usize = 0;
        while i < self.messages.len()
            invariant
                i <= self.messages@.len(),
                messages@.len() == i,
                forall|j: int|
                    0 <= j < i ==> message_to_azure(#[trigger] self.messages@[j], messages@[j]),
            decreases self.messages@.len() - i,
        {
            messages.push(message_of(&self.messages[i]));
            i = i + 1;
        }
        let tool_choice = match &self.tool_choice {
            None => None,
            Some(c) => Some(choice_of(c)),
        };
        let stop = match &self.stop {
            None => None,
            Some(s) => Some(stop_of(s)),
        };
        Transformation {
            request: AzureRequest {
                messages,
                temperature: self.temperature,
                top_p: self.top_p,
                stream: self.stream,
                max_tokens: self.max_tokens,
                presence_penalty: self.presence_penalty,
                frequency_penalty: self.frequency_penalty,
                logit_bias: bias_of(&self.logit_bias),
                n: self.n,
                seed: self.seed,
                user: clone_string_option(&self.user),
                response_format: clone_json_option(&self.response_format),
                tools: tools_of(&self.tools),
                tool_choice,
                stop,
                data_sources: context.data_sources,
            },
            loss: TransformationLoss { model: self.model.clone() },
        }
    }
}

} // verus!
