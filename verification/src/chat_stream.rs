//! Chat completion streams: which provider chunks reach the caller, how
//! usage is read and logged once, and how Gemini stream responses become
//! OpenAI chat completion chunks.

use vstd::prelude::*;
use crate::json_text::{json_canonical, json_canonical_text, json_i64, json_i64_at, json_kind, json_kind_at, JsonKind};
use crate::sse::{event_data, spec_event_data, spec_frame, sse_frame};
use crate::text::{seq_eq, to_owned};

verus! {

/// What happens to one parsed chunk of an OpenAI or Azure stream.
#[derive(Clone, Copy, Debug, PartialEq, Eq, Structural)]
pub enum ChunkAction {
    Forward,
    Drop,
    /// Forward it and log the usage it carries.
    ForwardAndLogUsage,
    /// Log the usage it carries and drop it.
    DropAndLogUsage,
}

/// What happens to a chunk with these properties: an Azure chunk that only
/// carries prompt filter results is dropped; a usage-only chunk is logged,
/// and forwarded only when the caller asked for usage.
pub open spec fn spec_chunk_action(
    choices_empty: bool,
    has_prompt_filter_results: bool,
    has_usage: bool,
    include_usage_requested: bool,
    drop_prompt_filter_chunks: bool,
) -> ChunkAction {
    if drop_prompt_filter_chunks && choices_empty && has_prompt_filter_results {
        ChunkAction::Drop
    } else if choices_empty && has_usage && !include_usage_requested {
        ChunkAction::DropAndLogUsage
    } else if choices_empty && has_usage {
        ChunkAction::ForwardAndLogUsage
    } else {
        ChunkAction::Forward
    }
}

/// What happens to a chunk; `drop_prompt_filter_chunks` is set for Azure.
pub fn chunk_action(
    choices_empty: bool,
    has_prompt_filter_results: bool,
    has_usage: bool,
    include_usage_requested: bool,
    drop_prompt_filter_chunks: bool,
) -> (r: ChunkAction)
    ensures
        r == spec_chunk_action(
            choices_empty,
            has_prompt_filter_results,
            has_usage,
            include_usage_requested,
            drop_prompt_filter_chunks,
        ),
{
    if drop_prompt_filter_chunks && choices_empty && has_prompt_filter_results {
        ChunkAction::Drop
    } else if choices_empty && has_usage && !include_usage_requested {
        ChunkAction::DropAndLogUsage
    } else if choices_empty && has_usage {
        ChunkAction::ForwardAndLogUsage
    } else {
        ChunkAction::Forward
    }
}

/// `i64::saturating_sub`.
pub open spec fn sat_sub_i64(a: i64, b: i64) -> i64 {
    if a - b > i64::MAX {
        i64::MAX
    } else if a - b < i64::MIN {
        i64::MIN
    } else {
        (a - b) as i64
    }
}

fn saturating_sub_i64(a: i64, b: i64) -> (r: i64)
    ensures
        r == sat_sub_i64(a, b),
{
    if b >= 0 {
        if a < i64::MIN + b {
            i64::MIN
        } else {
            a - b
        }
    } else {
        if a > i64::MAX + b {
            i64::MAX
        } else {
            a - b
        }
    }
}

/// The `(input, output)` tokens of a usage object with these counts: the
/// completion count, or else the total less the prompt count (saturating);
/// nothing without a prompt count.
pub open spec fn spec_usage(prompt: Option<i64>, completion: Option<i64>, total: Option<i64>) -> Option<
    (i64, i64),
> {
    match prompt {
        None => None,
        Some(p) => match completion {
            Some(c) => Some((p, c)),
            None => match total {
                Some(t) => Some((p, sat_sub_i64(t, p))),
                None => None,
            },
        },
    }
}

/// The usage of a chunk, from the integer counts of its usage object
/// (`None` where a count is absent or not an integer).
pub fn usage_from_counts(prompt: Option<i64>, completion: Option<i64>, total: Option<i64>) -> (r:
    Option<(i64, i64)>)
    ensures
        r == spec_usage(prompt, completion, total),
{
    let p = match prompt {
        Some(p) => p,
        None => {
            return None;
        },
    };
    if let Some(c) = completion {
        return Some((p, c));
    }
    match total {
        Some(t) => Some((p, saturating_sub_i64(t, p))),
        None => None,
    }
}

/// Whether the request log of a stream was sent; it is sent once.
pub struct UsageLogGate {
    sent: bool,
}

impl UsageLogGate {
    pub closed spec fn is_sent(&self) -> bool {
        self.sent
    }

    /// A stream whose log was not sent yet.
    pub fn new() -> (r: Self)
        ensures
            !r.is_sent(),
    {
        UsageLogGate { sent: false }
    }

    /// Whether to send the log now: only the first time; afterwards the
    /// log counts as sent.
    pub fn take(&mut self) -> (r: bool)
        ensures
            r == !old(self).is_sent(),
            final(self).is_sent(),
    {
        if self.sent {
            false
        } else {
            self.sent = true;
            true
        }
    }
}

/// `char::to_ascii_uppercase`.
pub open spec fn ascii_upper(c: char) -> char {
    if 'a' <= c && c <= 'z' {
        ((c as int) - 32) as char
    } else {
        c
    }
}

/// `char::to_ascii_lowercase`.
pub open spec fn ascii_lower(c: char) -> char {
    if 'A' <= c && c <= 'Z' {
        ((c as int) + 32) as char
    } else {
        c
    }
}

/// `str::to_ascii_uppercase`: ASCII letters `a` to `z` become `A` to `Z`;
/// every other character is unchanged.
#[verifier::external_body]
pub(crate) fn to_ascii_uppercase(s: &str) -> (r: String)
    ensures
        r@ == s@.map_values(|c: char| ascii_upper(c)),
{
    s.to_ascii_uppercase()
}

/// `str::to_ascii_lowercase`: ASCII letters `A` to `Z` become `a` to `z`;
/// every other character is unchanged.
#[verifier::external_body]
fn to_ascii_lowercase(s: &str) -> (r: String)
    ensures
        r@ == s@.map_values(|c: char| ascii_lower(c)),
{
    s.to_ascii_lowercase()
}

/// The OpenAI finish reason of a Gemini finish reason, compared without
/// regard to ASCII case: `STOP` is `stop`, `MAX_TOKENS` is `length`,
/// `SAFETY` and `RECITATION` are `content_filter`; any other is lower-cased.
pub open spec fn spec_finish_reason(reason: Option<Seq<char>>) -> Option<Seq<char>> {
    match reason {
        None => None,
        Some(r) => {
            let u = r.map_values(|c: char| ascii_upper(c));
            if u == "STOP"@ {
                Some("stop"@)
            } else if u == "MAX_TOKENS"@ {
                Some("length"@)
            } else if u == "SAFETY"@ || u == "RECITATION"@ {
                Some("content_filter"@)
            } else {
                Some(u.map_values(|c: char| ascii_lower(c)))
            }
        },
    }
}

pub open spec fn opt_view(s: Option<String>) -> Option<Seq<char>> {
    match s {
        Some(v) => Some(v@),
        None => None,
    }
}

/// The OpenAI finish reason of a Gemini candidate.
pub fn transform_finish_reason(reason: Option<String>) -> (r: Option<String>)
    ensures
        opt_view(r) == spec_finish_reason(opt_view(reason)),
{
    match reason {
        None => None,
        Some(value) => {
            let upper = to_ascii_uppercase(value.as_str());
            if seq_eq(upper.as_str(), "STOP") {
                proof {
                    reveal_strlit("stop");
                }
                Some(to_owned("stop"))
            } else if seq_eq(upper.as_str(), "MAX_TOKENS") {
                proof {
                    reveal_strlit("length");
                }
                Some(to_owned("length"))
            } else if seq_eq(upper.as_str(), "SAFETY") || seq_eq(upper.as_str(), "RECITATION") {
                proof {
                    reveal_strlit("content_filter");
                }
                Some(to_owned("content_filter"))
            } else {
                Some(to_ascii_lowercase(upper.as_str()))
            }
        },
    }
}

/// What an event of a provider stream carries.
#[derive(Clone, Debug)]
pub enum StreamEventData {
    /// No `data:` line: the event is skipped.
    Skip,
    /// The data `[DONE]` that ends an OpenAI stream.
    Done,
    /// Any other data.
    Data(String),
}

pub open spec fn spec_stream_event_data(event: Seq<char>) -> (int, Seq<char>) {
    match spec_event_data(event) {
        None => (0, Seq::empty()),
        Some(d) => if d == "[DONE]"@ {
            (1, Seq::empty())
        } else {
            (2, d)
        },
    }
}

pub open spec fn stream_event_data_view(e: StreamEventData) -> (int, Seq<char>) {
    match e {
        StreamEventData::Skip => (0, Seq::empty()),
        StreamEventData::Done => (1, Seq::empty()),
        StreamEventData::Data(d) => (2, d@),
    }
}

/// The data of an event of a provider stream.
pub fn stream_event_data(event: &str) -> (r: StreamEventData)
    ensures
        stream_event_data_view(r) == spec_stream_event_data(event@),
{
    proof {
        reveal_strlit("[DONE]");
    }
    match event_data(event) {
        None => StreamEventData::Skip,
        Some(d) => if seq_eq(d.as_str(), "[DONE]") {
            StreamEventData::Done
        } else {
            StreamEventData::Data(d)
        },
    }
}

/// Whether a chunk's `choices` is missing, not an array, or empty.
pub open spec fn chunk_choices_empty(d: Seq<char>) -> bool {
    !(json_kind(d, "/choices"@) == JsonKind::Array && json_kind(d, "/choices/0"@) != JsonKind::Absent)
}

/// Whether a chunk has `prompt_filter_results`.
pub open spec fn chunk_has_prompt_filter(d: Seq<char>) -> bool {
    json_kind(d, "/prompt_filter_results"@) != JsonKind::Absent
}

/// Whether a chunk has a `usage` that is not `null`.
pub open spec fn chunk_has_usage(d: Seq<char>) -> bool {
    json_kind(d, "/usage"@) != JsonKind::Absent && json_kind(d, "/usage"@) != JsonKind::Null
}

/// The `(input, output)` tokens a usage log of a chunk reports.
pub open spec fn chunk_usage_log(d: Seq<char>) -> (Option<i64>, Option<i64>) {
    match spec_usage(
        json_i64(d, "/usage/prompt_tokens"@),
        json_i64(d, "/usage/completion_tokens"@),
        json_i64(d, "/usage/total_tokens"@),
    ) {
        Some((i, o)) => (Some(i), Some(o)),
        None => (None, None),
    }
}

pub open spec fn logs_usage(a: ChunkAction) -> bool {
    a == ChunkAction::ForwardAndLogUsage || a == ChunkAction::DropAndLogUsage
}

pub open spec fn forwards(a: ChunkAction) -> bool {
    a == ChunkAction::Forward || a == ChunkAction::ForwardAndLogUsage
}

/// What one event of an OpenAI or Azure chat completion stream gives, when
/// the usage log was already sent (`sent`) or not: the frame forwarded to
/// the caller, the usage log to write now, and whether the log counts as
/// sent afterwards. An event without data gives nothing; `[DONE]` and data
/// that is not JSON are forwarded as they are; a JSON chunk is handled as
/// `spec_chunk_action` says, written back by `serde_json`, and logs its
/// usage the first time a usage chunk is seen.
pub open spec fn spec_filter_chunk_event(
    sent: bool,
    event: Seq<char>,
    include_usage_requested: bool,
    drop_prompt_filter: bool,
) -> (Option<Seq<char>>, Option<(Option<i64>, Option<i64>)>, bool) {
    let (k, d) = spec_stream_event_data(event);
    if k == 0 {
        (None, None, sent)
    } else if k == 1 {
        (Some(spec_frame("[DONE]"@)), None, sent)
    } else if json_kind(d, ""@) == JsonKind::Absent {
        (Some(spec_frame(d)), None, sent)
    } else {
        let a = spec_chunk_action(
            chunk_choices_empty(d),
            chunk_has_prompt_filter(d),
            chunk_has_usage(d),
            include_usage_requested,
            drop_prompt_filter,
        );
        (
            if forwards(a) {
                Some(spec_frame(json_canonical(d)))
            } else {
                None
            },
            if logs_usage(a) && !sent {
                Some(chunk_usage_log(d))
            } else {
                None
            },
            sent || logs_usage(a),
        )
    }
}

/// Handles one event of an OpenAI or Azure chat completion stream; Azure's
/// prompt-filter-only chunks are dropped where `drop_prompt_filter` is set.
pub fn filter_chunk_event(
    gate: &mut UsageLogGate,
    event: &str,
    include_usage_requested: bool,
    drop_prompt_filter: bool,
) -> (r: (Option<String>, Option<(Option<i64>, Option<i64>)>))
    ensures
        ({
            let (f, l, s) = spec_filter_chunk_event(
                old(gate).is_sent(),
                event@,
                include_usage_requested,
                drop_prompt_filter,
            );
            &&& opt_view(r.0) == f
            &&& r.1 == l
            &&& final(gate).is_sent() == s
        }),
{
    proof {
        reveal_strlit("[DONE]");
        reveal_strlit("/choices");
        reveal_strlit("/choices/0");
        reveal_strlit("/prompt_filter_results");
        reveal_strlit("/usage");
        reveal_strlit("/usage/prompt_tokens");
        reveal_strlit("/usage/completion_tokens");
        reveal_strlit("/usage/total_tokens");
    }
    let d = match stream_event_data(event) {
        StreamEventData::Skip => {
            return (None, None);
        },
        StreamEventData::Done => {
            return (Some(sse_frame("[DONE]")), None);
        },
        StreamEventData::Data(d) => d,
    };
    let data = d.as_str();
    if json_kind_at(data, "") == JsonKind::Absent {
        return (Some(sse_frame(data)), None);
    }
    let choices_empty = !(json_kind_at(data, "/choices") == JsonKind::Array && json_kind_at(
        data,
        "/choices/0",
    ) != JsonKind::Absent);
    let has_prompt_filter = json_kind_at(data, "/prompt_filter_results") != JsonKind::Absent;
    let usage_kind = json_kind_at(data, "/usage");
    let has_usage = usage_kind != JsonKind::Absent && usage_kind != JsonKind::Null;
    let action = chunk_action(
        choices_empty,
        has_prompt_filter,
        has_usage,
        include_usage_requested,
        drop_prompt_filter,
    );
    let logging = match action {
        ChunkAction::ForwardAndLogUsage | ChunkAction::DropAndLogUsage => true,
        _ => false,
    };
    let log = if logging && gate.take() {
        let usage = usage_from_counts(
            json_i64_at(data, "/usage/prompt_tokens"),
            json_i64_at(data, "/usage/completion_tokens"),
            json_i64_at(data, "/usage/total_tokens"),
        );
        Some(
            match usage {
                Some((i, o)) => (Some(i), Some(o)),
                None => (None, None),
            },
        )
    } else {
        None
    };
    let frame = match action {
        ChunkAction::Forward | ChunkAction::ForwardAndLogUsage => {
            let payload = json_canonical_text(data);
            Some(sse_frame(payload.as_str()))
        },
        _ => None,
    };
    (frame, log)
}

/// A usage-only chunk (empty choices, a usage, no prompt-filter results)
/// reaches the caller exactly when the caller asked for usage, whether or
/// not prompt-filter chunks are dropped; its usage is always logged.
pub proof fn law_usage_chunk_forwarded_iff_requested(include_usage_requested: bool, drop_prompt_filter: bool)
    ensures
        spec_chunk_action(true, false, true, include_usage_requested, drop_prompt_filter) == if include_usage_requested {
            ChunkAction::ForwardAndLogUsage
        } else {
            ChunkAction::DropAndLogUsage
        },
{
}

/// On a stream, an event whose data is a usage-only JSON chunk gives a frame
/// exactly when the caller asked for usage, writes the usage log of the
/// chunk exactly when no log was sent yet, and leaves the log sent.
pub proof fn law_usage_event_forwarded_iff_requested(
    sent: bool,
    event: Seq<char>,
    include_usage_requested: bool,
    drop_prompt_filter: bool,
)
    requires
        spec_stream_event_data(event).0 == 2,
        json_kind(spec_stream_event_data(event).1, ""@) != JsonKind::Absent,
        chunk_choices_empty(spec_stream_event_data(event).1),
        !chunk_has_prompt_filter(spec_stream_event_data(event).1),
        chunk_has_usage(spec_stream_event_data(event).1),
    ensures
        ({
            let d = spec_stream_event_data(event).1;
            let (frame, log, sent_after) = spec_filter_chunk_event(
                sent,
                event,
                include_usage_requested,
                drop_prompt_filter,
            );
            &&& frame is Some <==> include_usage_requested
            &&& log == if sent {
                None
            } else {
                Some(chunk_usage_log(d))
            }
            &&& sent_after
        }),
{
    law_usage_chunk_forwarded_iff_requested(include_usage_requested, drop_prompt_filter);
}

} // verus!
