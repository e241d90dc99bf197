//! What the gateway makes of a provider's reply: which shapes an operation
//! accepts, what is logged of it, and what is reported to metrics.

use vstd::prelude::*;
use crate::provider_requests::ProviderOperation;

verus! {

/// How a provider's successful reply was read: decoded into the expected
/// type, kept as raw JSON, or passed on as a byte stream.
#[derive(Clone, Copy, Debug, PartialEq, Eq, Structural)]
pub enum ReplyShape {
    Decoded,
    Json,
    Stream,
}

/// The tokens a reply reports.
#[derive(Clone, Copy, Debug, PartialEq, Eq, Structural)]
pub struct TokenUsage {
    pub input_tokens: u64,
    pub output_tokens: u64,
}

/// A successful provider reply: its shape, status, and for a decoded reply
/// the tokens it reports.
#[derive(Clone, Copy, Debug, PartialEq, Eq, Structural)]
pub struct ProviderReply {
    pub shape: ReplyShape,
    pub status_code: u16,
    pub usage: Option<TokenUsage>,
}

/// A failed provider request: the provider's status where it answered with
/// an error, and the error's text.
#[derive(Clone, Debug, PartialEq, Eq)]
pub struct ProxyFailure {
    pub status_code: Option<u16>,
    pub message: String,
}

/// What an operation does with a reply of some shape.
#[derive(Clone, Copy, Debug)]
pub enum ReplyUse {
    Accept,
    /// Read the raw JSON as an Azure batch object.
    Renormalize,
    /// Refuse the reply with this message.
    Reject(&'static str),
}

pub open spec fn reject_message(u: ReplyUse) -> Seq<char> {
    match u {
        ReplyUse::Reject(m) => m@,
        _ => Seq::empty(),
    }
}

/// What operation `op` does with a reply of shape `shape`: a decoded reply
/// is accepted; Azure batch operations read raw JSON as a batch; other
/// shapes are refused with the operation's message. Deletions accept any
/// reply.
pub open spec fn spec_reply_use(op: ProviderOperation, azure: bool, shape: ReplyShape) -> (ReplyUse, Seq<char>) {
    match (op, shape) {
        (_, ReplyShape::Decoded) => (ReplyUse::Accept, Seq::empty()),
        (ProviderOperation::DeleteFile, _) => (ReplyUse::Accept, Seq::empty()),
        (ProviderOperation::CreateBatch, ReplyShape::Json) => if azure {
            (ReplyUse::Renormalize, Seq::empty())
        } else {
            (ReplyUse::Accept, "Batches API returned an unexpected response."@)
        },
        (ProviderOperation::CreateBatch, ReplyShape::Stream) => (
            ReplyUse::Accept,
            "Batches API returned an unexpected stream response."@,
        ),
        (ProviderOperation::RetrieveBatch, ReplyShape::Json) => if azure {
            (ReplyUse::Renormalize, Seq::empty())
        } else {
            (ReplyUse::Accept, "Batch retrieval returned an unexpected response."@)
        },
        (ProviderOperation::RetrieveBatch, ReplyShape::Stream) => (
            ReplyUse::Accept,
            "Batch retrieval returned an unexpected stream response."@,
        ),
        (ProviderOperation::CancelBatch, ReplyShape::Json) => if azure {
            (ReplyUse::Renormalize, Seq::empty())
        } else {
            (ReplyUse::Accept, "Batch cancel returned an unexpected response."@)
        },
        (ProviderOperation::CancelBatch, ReplyShape::Stream) => (
            ReplyUse::Accept,
            "Batch cancel returned an unexpected stream response."@,
        ),
        (ProviderOperation::FileMetadata, _) => (
            ReplyUse::Accept,
            "Provider file metadata response was unexpected."@,
        ),
        (ProviderOperation::UploadFile, ReplyShape::Json) => (
            ReplyUse::Accept,
            "Files API returned an unexpected response."@,
        ),
        (ProviderOperation::UploadFile, ReplyShape::Stream) => (
            ReplyUse::Accept,
            "Files API returned an unexpected stream response."@,
        ),
        (ProviderOperation::FileContent, _) => (
            ReplyUse::Accept,
            "Unexpected provider response for file content."@,
        ),
    }
}

/// What operation `op` does with a reply of shape `shape`; `azure` is set
/// for an Azure OpenAI connection.
pub fn reply_use(op: ProviderOperation, azure: bool, shape: ReplyShape) -> (r: ReplyUse)
    ensures
        match spec_reply_use(op, azure, shape) {
            (ReplyUse::Accept, m) => if m.len() == 0 {
                r == ReplyUse::Accept
            } else {
                r is Reject && reject_message(r) == m
            },
            (u, _) => r == u,
        },
{
    proof {
        reveal_strlit("Batches API returned an unexpected response.");
        reveal_strlit("Batches API returned an unexpected stream response.");
        reveal_strlit("Batch retrieval returned an unexpected response.");
        reveal_strlit("Batch retrieval returned an unexpected stream response.");
        reveal_strlit("Batch cancel returned an unexpected response.");
        reveal_strlit("Batch cancel returned an unexpected stream response.");
        reveal_strlit("Provider file metadata response was unexpected.");
        reveal_strlit("Files API returned an unexpected response.");
        reveal_strlit("Files API returned an unexpected stream response.");
        reveal_strlit("Unexpected provider response for file content.");
    }
    match (op, shape) {
        (_, ReplyShape::Decoded) => ReplyUse::Accept,
        (ProviderOperation::DeleteFile, _) => ReplyUse::Accept,
        (ProviderOperation::CreateBatch, ReplyShape::Json) => if azure {
            ReplyUse::Renormalize
        } else {
            ReplyUse::Reject("Batches API returned an unexpected response.")
        },
        (ProviderOperation::CreateBatch, ReplyShape::Stream) => ReplyUse::Reject(
            "Batches API returned an unexpected stream response.",
        ),
        (ProviderOperation::RetrieveBatch, ReplyShape::Json) => if azure {
            ReplyUse::Renormalize
        } else {
            ReplyUse::Reject("Batch retrieval returned an unexpected response.")
        },
        (ProviderOperation::RetrieveBatch, ReplyShape::Stream) => ReplyUse::Reject(
            "Batch retrieval returned an unexpected stream response.",
        ),
        (ProviderOperation::CancelBatch, ReplyShape::Json) => if azure {
            ReplyUse::Renormalize
        } else {
            ReplyUse::Reject("Batch cancel returned an unexpected response.")
        },
        (ProviderOperation::CancelBatch, ReplyShape::Stream) => ReplyUse::Reject(
            "Batch cancel returned an unexpected stream response.",
        ),
        (ProviderOperation::FileMetadata, _) => ReplyUse::Reject(
            "Provider file metadata response was unexpected.",
        ),
        (ProviderOperation::UploadFile, ReplyShape::Json) => ReplyUse::Reject(
            "Files API returned an unexpected response.",
        ),
        (ProviderOperation::UploadFile, ReplyShape::Stream) => ReplyUse::Reject(
            "Files API returned an unexpected stream response.",
        ),
        (ProviderOperation::FileContent, _) => ReplyUse::Reject(
            "Unexpected provider response for file content.",
        ),
    }
}

/// What the request log records of a provider call.
#[derive(Clone, Debug, PartialEq, Eq)]
pub struct ProxyLogEntry {
    pub http_status_code: i16,
    pub input_tokens: Option<i64>,
    pub output_tokens: Option<i64>,
    pub error: Option<String>,
}

/// The log record of a provider call: a decoded reply's usage, the status
/// (500 for a failure without one) as `i16`, and a failure's text.
pub fn proxy_log_entry(result: &Result<ProviderReply, ProxyFailure>) -> (r: ProxyLogEntry)
    ensures
        match *result {
            Ok(reply) => {
                &&& r.http_status_code == reply.status_code as i16
                &&& r.error is None
                &&& match (reply.shape, reply.usage) {
                    (ReplyShape::Decoded, Some(u)) => r.input_tokens == Some(u.input_tokens as i64)
                        && r.output_tokens == Some(u.output_tokens as i64),
                    _ => r.input_tokens is None && r.output_tokens is None,
                }
            },
            Err(f) => {
                &&& r.http_status_code == match f.status_code {
                    Some(s) => s as i16,
                    None => 500i16,
                }
                &&& r.input_tokens is None && r.output_tokens is None
                &&& r.error == Some(f.message)
            },
        },
{
    match result {
        Ok(reply) => {
            let (input_tokens, output_tokens) = match (reply.shape, reply.usage) {
                (ReplyShape::Decoded, Some(u)) => (Some(u.input_tokens as i64), Some(u.output_tokens as i64)),
                _ => (None, None),
            };
            ProxyLogEntry {
                http_status_code: reply.status_code as i16,
                input_tokens,
                output_tokens,
                error: None,
            }
        },
        Err(f) => ProxyLogEntry {
            http_status_code: match f.status_code {
                Some(s) => s as i16,
                None => 500,
            },
            input_tokens: None,
            output_tokens: None,
            error: Some(f.message.clone()),
        },
    }
}

/// The tokens and status reported to metrics for a provider call: a
/// decoded reply's usage and any reply's status; nothing for a failure.
pub fn proxy_metric_values(result: &Result<ProviderReply, ProxyFailure>) -> (r: (
    Option<u64>,
    Option<u64>,
    Option<u16>,
))
    ensures
        match *result {
            Ok(reply) => r == match (reply.shape, reply.usage) {
                (ReplyShape::Decoded, Some(u)) => (Some(u.input_tokens), Some(u.output_tokens), Some(reply.status_code)),
                _ => (None::<u64>, None::<u64>, Some(reply.status_code)),
            },
            Err(_) => r == (None::<u64>, None::<u64>, None::<u16>),
        },
{
    match result {
        Ok(reply) => match (reply.shape, reply.usage) {
            (ReplyShape::Decoded, Some(u)) => (Some(u.input_tokens), Some(u.output_tokens), Some(reply.status_code)),
            _ => (None, None, Some(reply.status_code)),
        },
        Err(_) => (None, None, None),
    }
}

/// What the route controller logs of a route's answer: nothing for a
/// stream (the stream logs when it ends), else the log record of the call.
pub fn controller_log_entry(result: &Result<ProviderReply, ProxyFailure>) -> (r: Option<ProxyLogEntry>)
    ensures
        match *result {
            Ok(reply) => if reply.shape == ReplyShape::Stream {
                r is None
            } else {
                r matches Some(e) && e.http_status_code == reply.status_code as i16 && e.error is None
            },
            Err(f) => r matches Some(e) && e.error == Some(f.message),
        },
{
    match result {
        Ok(reply) => if reply.shape == ReplyShape::Stream {
            None
        } else {
            Some(proxy_log_entry(result))
        },
        Err(_) => Some(proxy_log_entry(result)),
    }
}

/// How a provider's answer to a JSON call is read.
#[derive(Clone, Copy, Debug, PartialEq, Eq, Structural)]
pub enum ReplyReading {
    /// Decoded as the expected response type.
    Decoded,
    /// Kept as raw JSON.
    Json,
    /// A provider error carrying the body as JSON.
    ErrorJson,
    /// A provider error carrying the body as text, invalid UTF-8 replaced.
    ErrorText,
}

/// A successful answer is decoded where it has the expected shape and kept
/// as JSON otherwise; an unsuccessful one is an error with its body as JSON
/// where that parses, else as text.
pub fn read_provider_reply(success: bool, decodes: bool, body_is_json: bool) -> (r: ReplyReading)
    ensures
        r == if success {
            if decodes {
                ReplyReading::Decoded
            } else {
                ReplyReading::Json
            }
        } else if body_is_json {
            ReplyReading::ErrorJson
        } else {
            ReplyReading::ErrorText
        },
{
    if success {
        if decodes {
            ReplyReading::Decoded
        } else {
            ReplyReading::Json
        }
    } else if body_is_json {
        ReplyReading::ErrorJson
    } else {
        ReplyReading::ErrorText
    }
}

} // verus!
