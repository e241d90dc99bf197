//! The OpenAI v1 embeddings request.

use vstd::prelude::*;
use crate::errors::ProxyRequestError;
use crate::providers::ConnectionInfo;
use crate::text::to_owned;

verus! {

/// An embeddings request.
#[derive(Debug, PartialEq, Clone)]
pub struct EmbeddingsRequest {
    /// The text or tokens to embed.
    pub input: EmbeddingsRequestInput,
    pub model: String,
    /// `float` or `base64`.
    pub encoding_format: Option<String>,
    pub dimensions: Option<i64>,
    pub user: Option<String>,
}

/// A string, strings, a token array or token arrays.
#[derive(Debug, PartialEq, Clone)]
pub enum EmbeddingsRequestInput {
    String(String),
    ArrayString(Vec<String>),
    ArrayInt(Vec<i64>),
    ArrayArrayInt(Vec<Vec<i64>>),
}

/// Whether an input is given as tokens rather than text.
pub open spec fn is_token_input(i: EmbeddingsRequestInput) -> bool {
    i is ArrayInt || i is ArrayArrayInt
}

/// Token inputs can only go to OpenAI: elsewhere the request is answered
/// with status 400 and a message saying so.
pub fn check_embeddings_input(request: &EmbeddingsRequest, connection: &ConnectionInfo) -> (r: Result<
    (),
    ProxyRequestError,
>)
    ensures
        is_token_input(request.input) && !(*connection is OpenAiApiKey) ==> (r matches Err(e)
            && e.status_code == 400 && e.message@
            == "Token array embeddings input is only supported for OpenAI connections."@),
        !(is_token_input(request.input) && !(*connection is OpenAiApiKey)) ==> r is Ok,
{
    let token_input = match &request.input {
        EmbeddingsRequestInput::ArrayInt(_) | EmbeddingsRequestInput::ArrayArrayInt(_) => true,
        _ => false,
    };
    let openai = match connection {
        ConnectionInfo::OpenAiApiKey { .. } => true,
        _ => false,
    };
    if token_input && !openai {
        return Err(
            ProxyRequestError {
                status_code: 400,
                message: to_owned("Token array embeddings input is only supported for OpenAI connections."),
            },
        );
    }
    Ok(())
}

} // verus!
