//! Responses API streams. A Gemini stream is folded into an OpenAI
//! Responses event stream: a `created` event first, a text delta per text
//! part, and one final `completed`, `incomplete` or `failed` event that
//! carries the whole response. OpenAI and Azure streams pass through, and
//! their final events are logged.

use vstd::prelude::*;
use crate::chat_stream::{ascii_upper, opt_view, to_ascii_uppercase};
use crate::gemini_stream::{GeminiCandidate, GeminiPart};
use crate::text::{concat, decimal, seq_eq, to_owned, usize_to_decimal};

verus! {

/// The status of a response.
#[derive(Clone, Copy, Debug, PartialEq, Eq, Structural)]
pub enum ResponseStatus {
    InProgress,
    Completed,
    Incomplete,
    Failed,
}

/// Why a response stopped before it was complete.
#[derive(Clone, Copy, Debug, PartialEq, Eq, Structural)]
pub enum IncompleteReason {
    MaxOutputTokens,
    ContentFilter,
}

/// Gemini's token counts of a stream.
#[derive(Clone, Copy, Debug, PartialEq, Eq, Structural)]
pub struct GeminiUsageMetadata {
    pub prompt_token_count: Option<u32>,
    pub candidates_token_count: Option<u32>,
    pub total_token_count: Option<u32>,
    pub cached_content_token_count: Option<u32>,
    pub thoughts_token_count: Option<u32>,
}

/// One Gemini response of a Responses stream.
#[derive(Clone, Debug)]
pub struct GeminiResponsesChunk {
    pub response_id: Option<String>,
    pub usage: Option<GeminiUsageMetadata>,
    /// Why the prompt was blocked, if it was.
    pub block_reason: Option<String>,
    pub candidates: Option<Vec<GeminiCandidate>>,
}

/// A function call of the response.
#[derive(Clone, Debug)]
pub struct FunctionCallItem {
    pub call_id: String,
    pub name: String,
    pub arguments: String,
}

/// The token usage of a response.
#[derive(Clone, Copy, Debug, PartialEq, Eq, Structural)]
pub struct ResponseUsage {
    pub input_tokens: u64,
    pub cached_tokens: u64,
    pub output_tokens: u64,
    pub reasoning_tokens: u64,
    pub total_tokens: u64,
}

/// The usage of a response from Gemini's counts: absent counts are 0, and
/// an absent total is the input plus the output.
pub open spec fn spec_response_usage(u: GeminiUsageMetadata) -> ResponseUsage {
    let input = match u.prompt_token_count {
        Some(v) => v as u64,
        None => 0,
    };
    let output = match u.candidates_token_count {
        Some(v) => v as u64,
        None => 0,
    };
    ResponseUsage {
        input_tokens: input,
        cached_tokens: match u.cached_content_token_count {
            Some(v) => v as u64,
            None => 0,
        },
        output_tokens: output,
        reasoning_tokens: match u.thoughts_token_count {
            Some(v) => v as u64,
            None => 0,
        },
        total_tokens: match u.total_token_count {
            Some(v) => v as u64,
            None => (input + output) as u64,
        },
    }
}

/// The usage of a response from Gemini's counts.
pub fn response_usage(u: &GeminiUsageMetadata) -> (r: ResponseUsage)
    ensures
        r == spec_response_usage(*u),
{
    let input: u64 = match u.prompt_token_count {
        Some(v) => v as u64,
        None => 0,
    };
    let output: u64 = match u.candidates_token_count {
        Some(v) => v as u64,
        None => 0,
    };
    ResponseUsage {
        input_tokens: input,
        cached_tokens: match u.cached_content_token_count {
            Some(v) => v as u64,
            None => 0,
        },
        output_tokens: output,
        reasoning_tokens: match u.thoughts_token_count {
            Some(v) => v as u64,
            None => 0,
        },
        total_tokens: match u.total_token_count {
            Some(v) => v as u64,
            None => input + output,
        },
    }
}

/// The whole response as an event shows it.
#[derive(Clone, Debug)]
pub struct ResponseSnapshot {
    pub id: String,
    pub status: ResponseStatus,
    /// The id of the output message: `gemini-msg-<response id>`.
    pub message_id: String,
    pub output_text: Option<String>,
    pub tool_calls: Vec<FunctionCallItem>,
    pub usage: Option<ResponseUsage>,
    pub incomplete_reason: Option<IncompleteReason>,
    /// The error of a failed response: a blocked prompt.
    pub error_message: Option<String>,
    pub model: String,
}

/// An event of the Responses stream.
#[derive(Clone, Debug)]
pub enum ResponsesStreamEvent {
    Created(ResponseSnapshot),
    TextDelta { item_id: String, output_index: u64, content_index: u64, delta: String },
    Completed(ResponseSnapshot),
    Incomplete(ResponseSnapshot),
    Failed(ResponseSnapshot),
}

/// The SSE event name of an event.
pub open spec fn spec_event_name(e: ResponsesStreamEvent) -> Seq<char> {
    match e {
        ResponsesStreamEvent::Created(_) => "response.created"@,
        ResponsesStreamEvent::TextDelta { .. } => "response.output_text.delta"@,
        ResponsesStreamEvent::Completed(_) => "response.completed"@,
        ResponsesStreamEvent::Failed(_) => "response.failed"@,
        ResponsesStreamEvent::Incomplete(_) => "response.incomplete"@,
    }
}

/// The SSE event name of an event.
pub fn event_name(e: &ResponsesStreamEvent) -> (r: &'static str)
    ensures
        r@ == spec_event_name(*e),
{
    match e {
        ResponsesStreamEvent::Created(_) => "response.created",
        ResponsesStreamEvent::TextDelta { .. } => "response.output_text.delta",
        ResponsesStreamEvent::Completed(_) => "response.completed",
        ResponsesStreamEvent::Failed(_) => "response.failed",
        ResponsesStreamEvent::Incomplete(_) => "response.incomplete",
    }
}

/// `event: <name>`, `data: <payload>` and a blank line.
pub fn responses_event_frame(name: &str, payload: &str) -> (r: String)
    ensures
        r@ == "event: "@ + name@ + "\ndata: "@ + payload@ + "\n\n"@,
{
    let mut r = to_owned("event: ");
    r.append(name);
    r.append("\ndata: ");
    r.append(payload);
    r.append("\n\n");
    proof {
        reveal_strlit("event: ");
    }
    r
}

/// The tool choice mode a response shows when the request set none.
#[derive(Clone, Copy, Debug, PartialEq, Eq, Structural)]
pub enum ToolChoiceMode {
    /// Serialised as `none`.
    NoTool,
    /// Serialised as `auto`.
    Auto,
}

/// `none` without tools, `auto` with some.
pub fn default_tool_choice(tool_count: usize) -> (r: ToolChoiceMode)
    ensures
        r == if tool_count == 0 {
            ToolChoiceMode::NoTool
        } else {
            ToolChoiceMode::Auto
        },
{
    if tool_count == 0 {
        ToolChoiceMode::NoTool
    } else {
        ToolChoiceMode::Auto
    }
}

pub type CallItemView = (Seq<char>, Seq<char>, Seq<char>);

pub open spec fn call_item_view(c: FunctionCallItem) -> CallItemView {
    (c.call_id@, c.name@, c.arguments@)
}

/// `gemini-call-<candidate position>-<part position>`.
pub open spec fn responses_call_id(candidate: nat, part: nat) -> Seq<char> {
    "gemini-call-"@ + decimal(candidate) + "-"@ + decimal(part)
}

/// What the incomplete reason becomes after a candidate's finish reason:
/// `MAX_TOKENS` means the output token limit, `SAFETY` and `RECITATION` the
/// content filter (without regard to ASCII case); others leave it.
pub open spec fn spec_reason_after(r: Option<IncompleteReason>, finish: Option<Seq<char>>) -> Option<
    IncompleteReason,
> {
    match finish {
        None => r,
        Some(f) => {
            let u = f.map_values(|c: char| ascii_upper(c));
            if u == "MAX_TOKENS"@ {
                Some(IncompleteReason::MaxOutputTokens)
            } else if u == "SAFETY"@ || u == "RECITATION"@ {
                Some(IncompleteReason::ContentFilter)
            } else {
                r
            }
        },
    }
}

fn reason_after(r: Option<IncompleteReason>, finish: &Option<String>) -> (out: Option<IncompleteReason>)
    ensures
        out == spec_reason_after(r, opt_view(*finish)),
{
    match finish {
        None => r,
        Some(f) => {
            let u = to_ascii_uppercase(f.as_str());
            if seq_eq(u.as_str(), "MAX_TOKENS") {
                Some(IncompleteReason::MaxOutputTokens)
            } else if seq_eq(u.as_str(), "SAFETY") || seq_eq(u.as_str(), "RECITATION") {
                Some(IncompleteReason::ContentFilter)
            } else {
                r
            }
        },
    }
}

/// Whether a call with this id was already recorded.
pub open spec fn has_call_id(calls: Seq<CallItemView>, id: Seq<char>) -> bool {
    exists|i: int| 0 <= i < calls.len() && (#[trigger] calls[i]).0 == id
}

/// The text, calls and text deltas after the parts of candidate `ci`.
pub open spec fn fold_parts(
    text: Seq<char>,
    calls: Seq<CallItemView>,
    ci: nat,
    parts: Seq<GeminiPart>,
) -> (Seq<char>, Seq<CallItemView>, Seq<Seq<char>>)
    decreases parts.len(),
{
    if parts.len() == 0 {
        (text, calls, Seq::empty())
    } else {
        let (t, c, ds) = fold_parts(text, calls, ci, parts.drop_last());
        let p = parts.last();
        let (t2, ds2) = match p.text {
            Some(x) => (t + x@, ds.push(x@)),
            None => (t, ds),
        };
        let c2 = match p.function_call {
            Some(f) => {
                let id = responses_call_id(ci, (parts.len() - 1) as nat);
                if has_call_id(c, id) {
                    c
                } else {
                    c.push((id, f.name@, f.args_json@))
                }
            },
            None => c,
        };
        (t2, c2, ds2)
    }
}

/// The text, calls, incomplete reason and `(output index, delta)` text
/// deltas after a response's candidates.
pub open spec fn fold_candidates(
    text: Seq<char>,
    calls: Seq<CallItemView>,
    reason: Option<IncompleteReason>,
    cands: Seq<GeminiCandidate>,
) -> (Seq<char>, Seq<CallItemView>, Option<IncompleteReason>, Seq<(u64, Seq<char>)>)
    decreases cands.len(),
{
    if cands.len() == 0 {
        (text, calls, reason, Seq::empty())
    } else {
        let (t, c, r, ds) = fold_candidates(text, calls, reason, cands.drop_last());
        let ci = (cands.len() - 1) as nat;
        let cand = cands.last();
        let r2 = spec_reason_after(r, opt_view(cand.finish_reason));
        let parts = match cand.parts {
            Some(ps) => ps@,
            None => Seq::empty(),
        };
        let (t2, c2, pds) = fold_parts(t, c, ci, parts);
        (t2, c2, r2, ds + pds.map_values(|d: Seq<char>| (ci as u64, d)))
    }
}

/// The error message of a blocked prompt.
pub open spec fn blocked_message(reason: Seq<char>) -> Seq<char> {
    "Prompt blocked: "@ + reason
}

/// What the request log records when a stream ends.
#[derive(Clone, Debug, PartialEq, Eq)]
pub struct StreamLogEntry {
    pub input_tokens: Option<i64>,
    pub output_tokens: Option<i64>,
    pub error: Option<String>,
}

/// `s` shows a response with this id, text, calls, usage, incomplete
/// reason, error and model, with status `status`.
pub open spec fn snapshot_of(
    s: ResponseSnapshot,
    id: Seq<char>,
    text: Seq<char>,
    calls: Seq<CallItemView>,
    usage: Option<GeminiUsageMetadata>,
    reason: Option<IncompleteReason>,
    error: Option<Seq<char>>,
    model: Seq<char>,
    status: ResponseStatus,
) -> bool {
    &&& s.id@ == id
    &&& s.status == status
    &&& s.message_id@ == "gemini-msg-"@ + id
    &&& opt_view(s.output_text) == if text.len() == 0 {
        None
    } else {
        Some(text)
    }
    &&& s.tool_calls@.map_values(|c: FunctionCallItem| call_item_view(c)) == calls
    &&& s.usage == match usage {
        Some(u) => Some(spec_response_usage(u)),
        None => None,
    }
    &&& s.incomplete_reason == reason
    &&& opt_view(s.error_message) == error
    &&& s.model@ == model
}

/// `e` is the text delta `d` of output `index` of the message with id
/// `gemini-msg-<id>`.
pub open spec fn is_delta(e: ResponsesStreamEvent, id: Seq<char>, d: (u64, Seq<char>)) -> bool {
    match e {
        ResponsesStreamEvent::TextDelta { item_id, output_index, content_index, delta } => {
            &&& item_id@ == "gemini-msg-"@ + id
            &&& output_index == d.0
            &&& content_index == 0
            &&& delta@ == d.1
        },
        _ => false,
    }
}

/// The candidates of a response.
pub open spec fn candidates_of(chunk: &GeminiResponsesChunk) -> Seq<GeminiCandidate> {
    match chunk.candidates {
        Some(c) => c@,
        None => Seq::empty(),
    }
}

/// The status of a finished response.
pub open spec fn spec_final_status(error: Option<Seq<char>>, reason: Option<IncompleteReason>) -> ResponseStatus {
    if error is Some {
        ResponseStatus::Failed
    } else if reason is Some {
        ResponseStatus::Incomplete
    } else {
        ResponseStatus::Completed
    }
}

/// The error text logged for a finished response.
pub open spec fn spec_finish_error(error: Option<Seq<char>>, reason: Option<IncompleteReason>) -> Option<
    Seq<char>,
> {
    match error {
        Some(m) => Some("InvalidPrompt: "@ + m),
        None => match reason {
            Some(IncompleteReason::MaxOutputTokens) => Some("incomplete: MaxOutputTokens"@),
            Some(IncompleteReason::ContentFilter) => Some("incomplete: ContentFilter"@),
            None => None,
        },
    }
}

/// The logged tokens are Gemini's prompt and candidate counts.
pub open spec fn log_tokens_of(e: StreamLogEntry, usage: Option<GeminiUsageMetadata>) -> bool {
    match usage {
        Some(u) => {
            &&& e.input_tokens == match u.prompt_token_count {
                Some(v) => Some(v as i64),
                None => None::<i64>,
            }
            &&& e.output_tokens == match u.candidates_token_count {
                Some(v) => Some(v as i64),
                None => None::<i64>,
            }
        },
        None => e.input_tokens is None && e.output_tokens is None,
    }
}

/// Folds a Gemini stream into Responses events.
pub struct ResponsesStreamBuilder {
    response_id: String,
    model: String,
    output_text: String,
    tool_calls: Vec<FunctionCallItem>,
    usage: Option<GeminiUsageMetadata>,
    incomplete_reason: Option<IncompleteReason>,
    error_message: Option<String>,
    created_sent: bool,
    completed_sent: bool,
    log_sent: bool,
}

/// `e` is the final event of status `status` and shows the response that
/// `b` holds.
pub open spec fn final_event_shows(e: ResponsesStreamEvent, b: &ResponsesStreamBuilder, status: ResponseStatus) -> bool {
    match e {
        ResponsesStreamEvent::Completed(s) => status == ResponseStatus::Completed && b.shows(s, status),
        ResponsesStreamEvent::Incomplete(s) => status == ResponseStatus::Incomplete && b.shows(s, status),
        ResponsesStreamEvent::Failed(s) => status == ResponseStatus::Failed && b.shows(s, status),
        _ => false,
    }
}

impl ResponsesStreamBuilder {
    pub closed spec fn id(&self) -> Seq<char> {
        self.response_id@
    }

    pub closed spec fn model(&self) -> Seq<char> {
        self.model@
    }

    pub closed spec fn text(&self) -> Seq<char> {
        self.output_text@
    }

    pub closed spec fn calls(&self) -> Seq<CallItemView> {
        self.tool_calls@.map_values(|c: FunctionCallItem| call_item_view(c))
    }

    pub closed spec fn usage(&self) -> Option<GeminiUsageMetadata> {
        self.usage
    }

    pub closed spec fn reason(&self) -> Option<IncompleteReason> {
        self.incomplete_reason
    }

    pub closed spec fn error(&self) -> Option<Seq<char>> {
        opt_view(self.error_message)
    }

    pub closed spec fn created_sent(&self) -> bool {
        self.created_sent
    }

    pub closed spec fn completed_sent(&self) -> bool {
        self.completed_sent
    }

    pub closed spec fn log_sent(&self) -> bool {
        self.log_sent
    }

    /// `s` shows the response as it stands, with status `status`.
    pub open spec fn shows(&self, s: ResponseSnapshot, status: ResponseStatus) -> bool {
        snapshot_of(
            s,
            self.id(),
            self.text(),
            self.calls(),
            self.usage(),
            self.reason(),
            self.error(),
            self.model(),
            status,
        )
    }

    /// A builder for a stream of `model` (`gemini` if the request named
    /// none); the response is named `gemini` until Gemini names it.
    pub fn new(model: Option<String>) -> (r: Self)
        ensures
            r.id() == "gemini"@,
            r.model() == match model {
                Some(m) => m@,
                None => "gemini"@,
            },
            r.text() == Seq::<char>::empty(),
            r.calls() == Seq::<CallItemView>::empty(),
            r.usage() is None,
            r.reason() is None,
            r.error() is None,
            !r.created_sent(),
            !r.completed_sent(),
            !r.log_sent(),
    {
        proof {
            reveal_strlit("gemini");
        }
        let model = match model {
            Some(m) => m,
            None => to_owned("gemini"),
        };
        let r = ResponsesStreamBuilder {
            response_id: to_owned("gemini"),
            model,
            output_text: String::new(),
            tool_calls: Vec::new(),
            usage: None,
            incomplete_reason: None,
            error_message: None,
            created_sent: false,
            completed_sent: false,
            log_sent: false,
        };
        assert(r.calls() =~= Seq::<CallItemView>::empty());
        r
    }

    fn snapshot(&self, status: ResponseStatus) -> (r: ResponseSnapshot)
        ensures
            self.shows(r, status),
    {
        let mut calls: Vec<FunctionCallItem> = Vec::new();
        let mut i: usize = 0;
        while i < self.tool_calls.len()
            invariant
                i <= self.tool_calls@.len(),
                calls@.map_values(|c: FunctionCallItem| call_item_view(c)) == self.tool_calls@.subrange(
                    0,
                    i as int,
                ).map_values(|c: FunctionCallItem| call_item_view(c)),
            decreases self.tool_calls@.len() - i,
        {
            let c = &self.tool_calls[i];
            let ghost before = calls@;
            calls.push(
                FunctionCallItem {
                    call_id: c.call_id.clone(),
                    name: c.name.clone(),
                    arguments: c.arguments.clone(),
                },
            );
            assert(call_item_view(calls@[before.len() as int]) == call_item_view(self.tool_calls@[i as int]));
            assert(self.tool_calls@.subrange(0, i + 1) =~= self.tool_calls@.subrange(0, i as int).push(
                self.tool_calls@[i as int],
            ));
            assert(calls@.map_values(|c: FunctionCallItem| call_item_view(c)) =~= before.map_values(
                |c: FunctionCallItem| call_item_view(c),
            ).push(call_item_view(self.tool_calls@[i as int])));
            assert(calls@.map_values(|c: FunctionCallItem| call_item_view(c)) =~= self.tool_calls@.subrange(
                0,
                i + 1,
            ).map_values(|c: FunctionCallItem| call_item_view(c)));
            i = i + 1;
        }
        assert(self.tool_calls@.subrange(0, self.tool_calls@.len() as int) =~= self.tool_calls@);
        proof {
            reveal_strlit("gemini-msg-");
        }
        ResponseSnapshot {
            id: self.response_id.clone(),
            status,
            message_id: concat("gemini-msg-", self.response_id.as_str()),
            output_text: if self.output_text.as_str().unicode_len() == 0 {
                None
            } else {
                Some(self.output_text.clone())
            },
            tool_calls: calls,
            usage: match &self.usage {
                Some(u) => Some(response_usage(u)),
                None => None,
            },
            incomplete_reason: self.incomplete_reason,
            error_message: match &self.error_message {
                Some(m) => Some(m.clone()),
                None => None,
            },
            model: self.model.clone(),
        }
    }

    /// Folds one Gemini response in: its id, usage and blocked prompt are
    /// taken, then its candidates' texts, calls and finish reasons. The
    /// events are a `created` event showing the response before its
    /// candidates (first response only), then a text delta per text part.
    pub fn process(&mut self, chunk: &GeminiResponsesChunk) -> (events: Vec<ResponsesStreamEvent>)
        ensures
            final(self).id() == match chunk.response_id {
                Some(i) => i@,
                None => old(self).id(),
            },
            final(self).usage() == match chunk.usage {
                Some(u) => Some(u),
                None => old(self).usage(),
            },
            final(self).error() == match chunk.block_reason {
                Some(r) => Some(blocked_message(r@)),
                None => old(self).error(),
            },
            final(self).model() == old(self).model(),
            final(self).created_sent(),
            final(self).completed_sent() == old(self).completed_sent(),
            final(self).log_sent() == old(self).log_sent(),
            ({
                let (t, c, r, ds) = fold_candidates(
                    old(self).text(),
                    old(self).calls(),
                    old(self).reason(),
                    candidates_of(chunk),
                );
                let k: int = if old(self).created_sent() {
                    0
                } else {
                    1
                };
                &&& final(self).text() == t
                &&& final(self).calls() == c
                &&& final(self).reason() == r
                &&& events@.len() == k + ds.len()
                &&& !old(self).created_sent() ==> (events@[0] matches ResponsesStreamEvent::Created(s)
                    && snapshot_of(
                    s,
                    final(self).id(),
                    old(self).text(),
                    old(self).calls(),
                    final(self).usage(),
                    old(self).reason(),
                    final(self).error(),
                    old(self).model(),
                    ResponseStatus::InProgress,
                ))
                &&& forall|j: int|
                    0 <= j < ds.len() ==> is_delta(#[trigger] events@[k + j], final(self).id(), ds[j])
            }),
    {
        proof {
            reveal_strlit("Prompt blocked: ");
            reveal_strlit("gemini-msg-");
            reveal_strlit("gemini-call-");
            reveal_strlit("-");
        }
        if let Some(id) = &chunk.response_id {
            self.response_id = id.clone();
        }
        if let Some(u) = &chunk.usage {
            self.usage = Some(*u);
        }
        if let Some(reason) = &chunk.block_reason {
            self.error_message = Some(concat("Prompt blocked: ", reason.as_str()));
        }
        let mut events: Vec<ResponsesStreamEvent> = Vec::new();
        if !self.created_sent {
            let created = self.snapshot(ResponseStatus::InProgress);
            assert(snapshot_of(
                created,
                self.id(),
                old(self).text(),
                old(self).calls(),
                self.usage(),
                old(self).reason(),
                self.error(),
                old(self).model(),
                ResponseStatus::InProgress,
            ));
            events.push(ResponsesStreamEvent::Created(created));
            self.created_sent = true;
        }
        let ghost k = events@.len() as int;
        let ghost text0 = self.text();
        let ghost calls0 = self.calls();
        let ghost reason0 = self.reason();
        let ghost id0 = self.id();
        let ghost ev0 = events@;
        let item_id = concat("gemini-msg-", self.response_id.as_str());
        let empty: Vec<GeminiCandidate> = Vec::new();
        let cands = match &chunk.candidates {
            Some(c) => c,
            None => &empty,
        };
        assert(cands@ == candidates_of(chunk));
        assert(cands@.subrange(0, 0) =~= Seq::<GeminiCandidate>::empty());
        let mut ci: usize = 0;
        while ci < cands.len()
            invariant
                ci <= cands@.len(),
                self.id() == id0,
                self.model() == old(self).model(),
                self.usage() == match chunk.usage {
                    Some(u) => Some(u),
                    None => old(self).usage(),
                },
                self.error() == match chunk.block_reason {
                    Some(r) => Some(blocked_message(r@)),
                    None => old(self).error(),
                },
                self.created_sent(),
                self.completed_sent() == old(self).completed_sent(),
                self.log_sent() == old(self).log_sent(),
                item_id@ == "gemini-msg-"@ + id0,
                events@.len() >= k,
                ev0.len() == k,
                forall|i: int| 0 <= i < k ==> #[trigger] events@[i] == ev0[i],
                ({
                    let (t, c, r, ds) = fold_candidates(
                        text0,
                        calls0,
                        reason0,
                        cands@.subrange(0, ci as int),
                    );
                    &&& self.text() == t
                    &&& self.calls() == c
                    &&& self.reason() == r
                    &&& events@.len() == k + ds.len()
                    &&& forall|j: int|
                        0 <= j < ds.len() ==> is_delta(#[trigger] events@[k + j], id0, ds[j])
                }),
            decreases cands@.len() - ci,
        {
            let ghost pre = cands@.subrange(0, ci as int);
            let ghost post = cands@.subrange(0, ci + 1);
            assert(post.drop_last() =~= pre);
            assert(post.last() == cands@[ci as int]);
            let ghost (t0, c0, r0, ds0) = fold_candidates(text0, calls0, reason0, pre);
            let cand = &cands[ci];
            self.incomplete_reason = reason_after(self.incomplete_reason, &cand.finish_reason);
            let empty_parts: Vec<GeminiPart> = Vec::new();
            let parts = match &cand.parts {
                Some(p) => p,
                None => &empty_parts,
            };
            assert(parts@ == match cand.parts {
                Some(ps) => ps@,
                None => Seq::<GeminiPart>::empty(),
            });
            let ghost evc = events@;
            assert(evc.len() == k + ds0.len());
            assert(evc.len() >= k);
            assert(parts@.subrange(0, 0) =~= Seq::<GeminiPart>::empty());
            let mut pi: usize = 0;
            while pi < parts.len()
                invariant
                    pi <= parts@.len(),
                    ci < cands@.len(),
                    self.id() == id0,
                    self.model() == old(self).model(),
                    self.usage() == match chunk.usage {
                        Some(u) => Some(u),
                        None => old(self).usage(),
                    },
                    self.error() == match chunk.block_reason {
                        Some(r) => Some(blocked_message(r@)),
                        None => old(self).error(),
                    },
                    self.created_sent(),
                    self.completed_sent() == old(self).completed_sent(),
                    self.log_sent() == old(self).log_sent(),
                    self.reason() == spec_reason_after(r0, opt_view(cands@[ci as int].finish_reason)),
                    item_id@ == "gemini-msg-"@ + id0,
                    events@.len() >= evc.len(),
                    evc.len() == k + ds0.len(),
                    ev0.len() == k,
                    forall|i: int| 0 <= i < evc.len() ==> #[trigger] events@[i] == evc[i],
                    ({
                        let (t1, c1, pds) = fold_parts(t0, c0, ci as nat, parts@.subrange(0, pi as int));
                        &&& self.text() == t1
                        &&& self.calls() == c1
                        &&& events@.len() == evc.len() + pds.len()
                        &&& forall|j: int|
                            0 <= j < pds.len() ==> is_delta(
                                #[trigger] events@[evc.len() + j],
                                id0,
                                (ci as u64, pds[j]),
                            )
                    }),
                decreases parts@.len() - pi,
            {
                let ghost ppre = parts@.subrange(0, pi as int);
                let ghost ppost = parts@.subrange(0, pi + 1);
                assert(ppost.drop_last() =~= ppre);
                assert(ppost.last() == parts@[pi as int]);
                let ghost (t1, c1, pds) = fold_parts(t0, c0, ci as nat, ppre);
                let part = &parts[pi];
                let ghost ev_before = events@;
                if let Some(t) = &part.text {
                    self.output_text.append(t.as_str());
                    events.push(
                        ResponsesStreamEvent::TextDelta {
                            item_id: item_id.clone(),
                            output_index: ci as u64,
                            content_index: 0,
                            delta: t.clone(),
                        },
                    );
                    assert(forall|i: int| 0 <= i < ev_before.len() ==> events@[i] == ev_before[i]);
                    assert forall|j: int| 0 <= j < pds.len() + 1 implies is_delta(
                        #[trigger] events@[evc.len() + j],
                        id0,
                        (ci as u64, pds.push(t@)[j]),
                    ) by {
                        if j < pds.len() {
                            assert(events@[evc.len() + j] == ev_before[evc.len() + j]);
                        }
                    }
                }
                if let Some(f) = &part.function_call {
                    let d1 = usize_to_decimal(ci);
                    let d2 = usize_to_decimal(pi);
                    let h = concat("gemini-call-", d1.as_str());
                    let h2 = concat(h.as_str(), "-");
                    let id = concat(h2.as_str(), d2.as_str());
                    assert(id@ =~= responses_call_id(ci as nat, pi as nat));
                    if !self.has_call(id.as_str()) {
                        let ghost cb = self.tool_calls@;
                        self.tool_calls.push(
                            FunctionCallItem { call_id: id, name: f.name.clone(), arguments: f.args_json.clone() },
                        );
                        assert(self.calls() =~= cb.map_values(|c: FunctionCallItem| call_item_view(c)).push(
                            (responses_call_id(ci as nat, pi as nat), f.name@, f.args_json@),
                        ));
                    }
                }
                pi = pi + 1;
            }
            assert(parts@.subrange(0, parts@.len() as int) =~= parts@);
            proof {
                let (t1, c1, pds) = fold_parts(t0, c0, ci as nat, parts@);
                let ds1 = ds0 + pds.map_values(|d: Seq<char>| (ci as u64, d));
                assert(events@.len() == k + ds1.len());
                assert forall|j: int| 0 <= j < ds1.len() implies is_delta(#[trigger] events@[k + j], id0, ds1[j]) by {
                    if j < ds0.len() {
                        assert(k + j < evc.len());
                        assert(events@[k + j] == evc[k + j]);
                    } else {
                        let jj = j - ds0.len();
                        assert(ds1[j] == (ci as u64, pds[jj]));
                        assert(k + j == evc.len() + jj);
                    }
                }
                assert forall|i: int| 0 <= i < k implies events@[i] == ev0[i] by {
                    assert(i < evc.len());
                }
            }
            ci = ci + 1;
        }
        assert(cands@.subrange(0, cands@.len() as int) =~= cands@);
        events
    }

    fn log_entry(&mut self, error: Option<String>) -> (r: Option<StreamLogEntry>)
        ensures
            final(self).log_sent(),
            final(self).id() == old(self).id() && final(self).model() == old(self).model()
                && final(self).text() == old(self).text() && final(self).calls() == old(self).calls()
                && final(self).usage() == old(self).usage() && final(self).reason() == old(self).reason()
                && final(self).error() == old(self).error() && final(self).created_sent() == old(
                self,
            ).created_sent() && final(self).completed_sent() == old(self).completed_sent(),
            if old(self).log_sent() {
                r is None
            } else {
                r matches Some(e) && e.error == error && log_tokens_of(e, old(self).usage())
            },
    {
        if self.log_sent {
            return None;
        }
        self.log_sent = true;
        let (input_tokens, output_tokens) = match &self.usage {
            Some(u) => (
                match u.prompt_token_count {
                    Some(v) => Some(v as i64),
                    None => None,
                },
                match u.candidates_token_count {
                    Some(v) => Some(v as i64),
                    None => None,
                },
            ),
            None => (None, None),
        };
        Some(StreamLogEntry { input_tokens, output_tokens, error })
    }

    /// Ends the stream: unless it ended already, the final event shows the
    /// response as failed (blocked prompt), incomplete, or completed; the
    /// request log is written once, with the reason of a failed or
    /// incomplete response.
    pub fn finish(&mut self) -> (r: (Option<ResponsesStreamEvent>, Option<StreamLogEntry>))
        ensures
            final(self).completed_sent(),
            final(self).id() == old(self).id() && final(self).text() == old(self).text()
                && final(self).calls() == old(self).calls(),
            old(self).completed_sent() ==> r.0 is None && r.1 is None && final(self).log_sent()
                == old(self).log_sent(),
            !old(self).completed_sent() ==> {
                let status = spec_final_status(old(self).error(), old(self).reason());
                &&& r.0 matches Some(e) && final_event_shows(e, old(self), status)
                &&& final(self).log_sent()
                &&& if old(self).log_sent() {
                    r.1 is None
                } else {
                    r.1 matches Some(l) && opt_view(l.error) == spec_finish_error(
                        old(self).error(),
                        old(self).reason(),
                    ) && log_tokens_of(l, old(self).usage())
                }
            },
    {
        if self.completed_sent {
            return (None, None);
        }
        let status = if self.error_message.is_some() {
            ResponseStatus::Failed
        } else if self.incomplete_reason.is_some() {
            ResponseStatus::Incomplete
        } else {
            ResponseStatus::Completed
        };
        let snapshot = self.snapshot(status);
        let event = match status {
            ResponseStatus::Failed => ResponsesStreamEvent::Failed(snapshot),
            ResponseStatus::Incomplete => ResponsesStreamEvent::Incomplete(snapshot),
            _ => ResponsesStreamEvent::Completed(snapshot),
        };
        self.completed_sent = true;
        proof {
            reveal_strlit("InvalidPrompt: ");
            reveal_strlit("incomplete: MaxOutputTokens");
            reveal_strlit("incomplete: ContentFilter");
        }
        let error = match &self.error_message {
            Some(m) => Some(concat("InvalidPrompt: ", m.as_str())),
            None => match self.incomplete_reason {
                Some(IncompleteReason::MaxOutputTokens) => Some(to_owned("incomplete: MaxOutputTokens")),
                Some(IncompleteReason::ContentFilter) => Some(to_owned("incomplete: ContentFilter")),
                None => None,
            },
        };
        let log = self.log_entry(error);
        (Some(event), log)
    }

    /// The request log when the upstream failed mid-stream: written once,
    /// without an error text.
    pub fn fail_log(&mut self) -> (r: Option<StreamLogEntry>)
        ensures
            final(self).log_sent(),
            final(self).completed_sent() == old(self).completed_sent(),
            if old(self).log_sent() {
                r is None
            } else {
                r matches Some(e) && e.error is None && log_tokens_of(e, old(self).usage())
            },
    {
        self.log_entry(None)
    }

    fn has_call(&self, id: &str) -> (r: bool)
        ensures
            r == has_call_id(self.calls(), id@),
    {
        let mut i: usize = 0;
        while i < self.tool_calls.len()
            invariant
                i <= self.tool_calls@.len(),
                forall|k: int| 0 <= k < i ==> (#[trigger] self.tool_calls@[k]).call_id@ != id@,
            decreases self.tool_calls@.len() - i,
        {
            if seq_eq(self.tool_calls[i].call_id.as_str(), id) {
                assert(self.calls()[i as int].0 == id@);
                return true;
            }
            i = i + 1;
        }
        assert forall|k: int| 0 <= k < self.calls().len() implies (#[trigger] self.calls()[k]).0 != id@ by {
            assert(self.calls()[k] == call_item_view(self.tool_calls@[k]));
        }
        false
    }
}

/// The kind of an event of an OpenAI or Azure Responses stream.
#[derive(Clone, Copy, Debug, PartialEq, Eq, Structural)]
pub enum PassthroughEventKind {
    Completed,
    Failed,
    Incomplete,
    Error,
    Other,
}

/// What the request log needs of a passed-through event: its kind, the
/// response's `(input, output)` usage, the response's error as text, the
/// incomplete reason as text, and an error event's message.
#[derive(Clone, Debug)]
pub struct PassthroughEvent {
    pub kind: PassthroughEventKind,
    pub usage: Option<(u64, u64)>,
    pub error_text: Option<String>,
    pub incomplete_reason: Option<String>,
    pub message: Option<String>,
}

/// The log a passed-through event asks for: the usage of a completed,
/// failed or incomplete response with its error (`response failed` or
/// `response incomplete` when none is given), or the message of an error
/// event.
pub open spec fn spec_passthrough_log(e: PassthroughEvent) -> Option<(Option<(i64, i64)>, Option<Seq<char>>)> {
    let usage = match e.usage {
        Some(u) => Some((u.0 as i64, u.1 as i64)),
        None => None,
    };
    match e.kind {
        PassthroughEventKind::Completed => Some((usage, None)),
        PassthroughEventKind::Failed => Some(
            (
                usage,
                Some(
                    match e.error_text {
                        Some(t) => t@,
                        None => "response failed"@,
                    },
                ),
            ),
        ),
        PassthroughEventKind::Incomplete => Some(
            (
                usage,
                Some(
                    match e.error_text {
                        Some(t) => t@,
                        None => match e.incomplete_reason {
                            Some(r) => "incomplete: "@ + r@,
                            None => "response incomplete"@,
                        },
                    },
                ),
            ),
        ),
        PassthroughEventKind::Error => Some(
            (
                None,
                Some(
                    match e.message {
                        Some(m) => m@,
                        None => Seq::empty(),
                    },
                ),
            ),
        ),
        PassthroughEventKind::Other => None,
    }
}

pub open spec fn entry_matches(l: StreamLogEntry, want: (Option<(i64, i64)>, Option<Seq<char>>)) -> bool {
    &&& match want.0 {
        Some(u) => l.input_tokens == Some(u.0) && l.output_tokens == Some(u.1),
        None => l.input_tokens is None && l.output_tokens is None,
    }
    &&& opt_view(l.error) == want.1
}

/// The request log entry a passed-through event asks for, if any.
pub fn passthrough_log_entry(e: &PassthroughEvent) -> (r: Option<StreamLogEntry>)
    ensures
        match spec_passthrough_log(*e) {
            None => r is None,
            Some(want) => r matches Some(l) && entry_matches(l, want),
        },
{
    let (input_tokens, output_tokens) = match e.usage {
        Some(u) => (Some(u.0 as i64), Some(u.1 as i64)),
        None => (None, None),
    };
    proof {
        reveal_strlit("response failed");
        reveal_strlit("response incomplete");
        reveal_strlit("incomplete: ");
    }
    match e.kind {
        PassthroughEventKind::Completed => Some(StreamLogEntry { input_tokens, output_tokens, error: None }),
        PassthroughEventKind::Failed => {
            let error = match &e.error_text {
                Some(t) => t.clone(),
                None => to_owned("response failed"),
            };
            Some(StreamLogEntry { input_tokens, output_tokens, error: Some(error) })
        },
        PassthroughEventKind::Incomplete => {
            let error = match &e.error_text {
                Some(t) => t.clone(),
                None => match &e.incomplete_reason {
                    Some(r) => concat("incomplete: ", r.as_str()),
                    None => to_owned("response incomplete"),
                },
            };
            Some(StreamLogEntry { input_tokens, output_tokens, error: Some(error) })
        },
        PassthroughEventKind::Error => {
            let message = match &e.message {
                Some(m) => m.clone(),
                None => String::new(),
            };
            Some(StreamLogEntry { input_tokens: None, output_tokens: None, error: Some(message) })
        },
        PassthroughEventKind::Other => None,
    }
}

/// A candidate that finished for safety or recitation (ASCII case ignored)
/// leaves the response incomplete for its content filter: unless a prompt
/// was blocked, the response ends as incomplete and is logged as such.
pub proof fn law_content_filter_finish_makes_response_incomplete(
    text: Seq<char>,
    calls: Seq<CallItemView>,
    reason: Option<IncompleteReason>,
    cands: Seq<GeminiCandidate>,
)
    requires
        cands.len() > 0,
        cands.last().finish_reason matches Some(f) && (f@.map_values(|c: char| ascii_upper(c))
            == "SAFETY"@ || f@.map_values(|c: char| ascii_upper(c)) == "RECITATION"@),
    ensures
        fold_candidates(text, calls, reason, cands).2 == Some(IncompleteReason::ContentFilter),
        spec_final_status(None, fold_candidates(text, calls, reason, cands).2)
            == ResponseStatus::Incomplete,
        spec_finish_error(None, fold_candidates(text, calls, reason, cands).2) == Some(
            "incomplete: ContentFilter"@,
        ),
{
    reveal_strlit("SAFETY");
    reveal_strlit("RECITATION");
    reveal_strlit("MAX_TOKENS");
    let f = cands.last().finish_reason.unwrap()@;
    let u = f.map_values(|c: char| ascii_upper(c));
    assert(u != "MAX_TOKENS"@) by {
        if u == "MAX_TOKENS"@ {
            assert(u[0] == 'M');
            assert(u[0] == 'S' || u[0] == 'R');
        }
    }
}

} // verus!
