use llmur::connection_view::{Connection, GetConnectionResult};
use llmur::errors::{LLMurError, ProxyRequestError};
use llmur::failover::{attempt_log, attempt_succeeded, failover_next, failover_start, FailoverStep};
use llmur::ids::{ConnectionId, VirtualBatchId, VirtualFileId};
use llmur::openai_embeddings::{check_embeddings_input, EmbeddingsRequest, EmbeddingsRequestInput};
use llmur::openai_responder::OpenAiCompatibleResponse;
use llmur::pagination::{page_window, take_page, PageWindow};
use llmur::provider_requests::{provider_request, HttpMethod, ProviderOperation};
use llmur::providers::{
    azure_api_base, gemini_api_version, provider_connection, AzureOpenAiApiVersion, ConnectionInfo,
    GeminiApiVersion, ProviderConnection,
};
use llmur::proxy_calls::{proxy_call, stream_flags, ProxyEndpoint};
use llmur::proxy_replies::{
    controller_log_entry, proxy_log_entry, proxy_metric_values, read_provider_reply, reply_use,
    ProviderReply, ProxyFailure, ProxyLogEntry, ReplyReading, ReplyShape, ReplyUse, TokenUsage,
};
use llmur::route_utils::{
    id_or_bad_request, normalize_nullable, parse_bad_request, parse_virtual_batch_id,
    parse_virtual_file_id, NullableField,
};

fn openai_info() -> ConnectionInfo {
    ConnectionInfo::OpenAiApiKey {
        api_key: "sk-1".to_string(),
        api_endpoint: "https://api.openai.com/".to_string(),
        model: "gpt-4o".to_string(),
    }
}

fn azure_info() -> ConnectionInfo {
    ConnectionInfo::AzureOpenAiApiKey {
        api_key: "az-1".to_string(),
        api_endpoint: "https://x.openai.azure.com//".to_string(),
        api_version: AzureOpenAiApiVersion::V1,
        deployment_name: "dep".to_string(),
    }
}

fn gemini_info() -> ConnectionInfo {
    ConnectionInfo::GeminiApiKey {
        api_key: "g-1".to_string(),
        api_endpoint: "https://generativelanguage.googleapis.com".to_string(),
        api_version: GeminiApiVersion::V1BETA,
        model: "gemini-1.5-flash".to_string(),
    }
}

#[test]
fn provider_names() {
    assert_eq!(openai_info().get_provider_friendly_name(), "openai/v1");
    assert_eq!(azure_info().get_provider_friendly_name(), "azure/openai");
    assert_eq!(gemini_info().get_provider_friendly_name(), "gemini");
    assert_eq!(gemini_api_version(&GeminiApiVersion::V1BETA), "v1beta");
}

#[test]
fn azure_base_urls() {
    assert_eq!(azure_api_base("https://x.openai.azure.com/"), "https://x.openai.azure.com/openai/v1");
    assert_eq!(azure_api_base("https://x.openai.azure.com/openai/v1//"), "https://x.openai.azure.com/openai/v1");
    assert_eq!(azure_api_base(""), "/openai/v1");
}

#[test]
fn provider_connection_keeps_details() {
    match provider_connection(&gemini_info(), 3).unwrap() {
        ProviderConnection::Gemini { api_key, model, .. } => {
            assert_eq!(api_key, "g-1");
            assert_eq!(model, "gemini-1.5-flash");
        }
        other => panic!("unexpected {:?}", other),
    }
    assert!(matches!(provider_connection(&azure_info(), 0), Ok(ProviderConnection::Azure { .. })));
}

#[test]
fn openai_request_urls() {
    let c = provider_connection(&openai_info(), 0).unwrap();
    let r = provider_request(&c, ProviderOperation::CancelBatch, "batch_1", "unused");
    assert_eq!(r.method, HttpMethod::Post);
    assert_eq!(r.url, "https://api.openai.com/v1/batches/batch_1/cancel");
    assert_eq!(r.credential_header, "Authorization");
    assert_eq!(r.credential_value, "Bearer sk-1");
    let r = provider_request(&c, ProviderOperation::FileContent, "file-9", "");
    assert_eq!(r.method, HttpMethod::Get);
    assert_eq!(r.url, "https://api.openai.com/v1/files/file-9/content");
    let r = provider_request(&c, ProviderOperation::DeleteFile, "file-9", "");
    assert_eq!(r.method, HttpMethod::Delete);
    assert_eq!(r.url, "https://api.openai.com/v1/files/file-9");
}

#[test]
fn azure_request_urls() {
    let c = provider_connection(&azure_info(), 0).unwrap();
    let r = provider_request(&c, ProviderOperation::CreateBatch, "", "2025-01-01");
    assert_eq!(r.url, "https://x.openai.azure.com/openai/v1/batches?api-version=2025-01-01");
    assert_eq!(r.credential_header, "api-key");
    assert_eq!(r.credential_value, "az-1");
    let r = provider_request(&c, ProviderOperation::RetrieveBatch, "b1", "v");
    assert_eq!(r.url, "https://x.openai.azure.com/openai/v1/batches/b1?api-version=v");
    let r = provider_request(&c, ProviderOperation::UploadFile, "", "v");
    assert_eq!(r.method, HttpMethod::Post);
    assert_eq!(r.url, "https://x.openai.azure.com/openai/v1/files?api-version=v");
}

#[test]
fn gemini_request_urls() {
    let c = provider_connection(&gemini_info(), 0).unwrap();
    let base = "https://generativelanguage.googleapis.com";
    let r = provider_request(&c, ProviderOperation::CreateBatch, "", "");
    assert_eq!(r.url, format!("{}/v1beta/models/gemini-1.5-flash:batchGenerateContent", base));
    assert_eq!(r.credential_header, "x-goog-api-key");
    assert_eq!(r.credential_value, "g-1");
    let r = provider_request(&c, ProviderOperation::CancelBatch, "batches/abc", "");
    assert_eq!(r.url, format!("{}/v1beta/batches/abc:cancel", base));
    let r = provider_request(&c, ProviderOperation::FileContent, "files/f1", "");
    assert_eq!(r.url, format!("{}/download/v1beta/files/f1:download?alt=media", base));
    let r = provider_request(&c, ProviderOperation::UploadFile, "", "");
    assert_eq!(r.url, format!("{}/upload/v1beta/files", base));
}

#[test]
fn reply_uses() {
    assert!(matches!(reply_use(ProviderOperation::CreateBatch, false, ReplyShape::Decoded), ReplyUse::Accept));
    assert!(matches!(reply_use(ProviderOperation::CreateBatch, true, ReplyShape::Json), ReplyUse::Renormalize));
    assert!(matches!(
        reply_use(ProviderOperation::CreateBatch, false, ReplyShape::Json),
        ReplyUse::Reject("Batches API returned an unexpected response.")
    ));
    assert!(matches!(
        reply_use(ProviderOperation::RetrieveBatch, true, ReplyShape::Stream),
        ReplyUse::Reject("Batch retrieval returned an unexpected stream response.")
    ));
    assert!(matches!(reply_use(ProviderOperation::DeleteFile, false, ReplyShape::Stream), ReplyUse::Accept));
    assert!(matches!(
        reply_use(ProviderOperation::FileContent, true, ReplyShape::Json),
        ReplyUse::Reject("Unexpected provider response for file content.")
    ));
    assert!(matches!(
        reply_use(ProviderOperation::UploadFile, false, ReplyShape::Stream),
        ReplyUse::Reject("Files API returned an unexpected stream response.")
    ));
}

#[test]
fn proxy_log_records() {
    let decoded: Result<ProviderReply, ProxyFailure> = Ok(ProviderReply {
        shape: ReplyShape::Decoded,
        status_code: 200,
        usage: Some(TokenUsage { input_tokens: 11, output_tokens: 22 }),
    });
    assert_eq!(
        proxy_log_entry(&decoded),
        ProxyLogEntry { http_status_code: 200, input_tokens: Some(11), output_tokens: Some(22), error: None }
    );
    assert_eq!(proxy_metric_values(&decoded), (Some(11), Some(22), Some(200)));
    let stream: Result<ProviderReply, ProxyFailure> =
        Ok(ProviderReply { shape: ReplyShape::Stream, status_code: 200, usage: None });
    assert_eq!(controller_log_entry(&stream), None);
    assert_eq!(proxy_metric_values(&stream), (None, None, Some(200)));
    let failed: Result<ProviderReply, ProxyFailure> =
        Err(ProxyFailure { status_code: None, message: "boom".to_string() });
    assert_eq!(
        controller_log_entry(&failed),
        Some(ProxyLogEntry { http_status_code: 500, input_tokens: None, output_tokens: None, error: Some("boom".to_string()) })
    );
    assert_eq!(proxy_metric_values(&failed), (None, None, None));
    let failed429: Result<ProviderReply, ProxyFailure> =
        Err(ProxyFailure { status_code: Some(429), message: "slow".to_string() });
    assert_eq!(proxy_log_entry(&failed429).http_status_code, 429);
}

#[test]
fn pagination_windows() {
    assert_eq!(page_window(None, 20), PageWindow { limit: 20, fetch_limit: 21 });
    assert_eq!(page_window(Some(0), 20), PageWindow { limit: 1, fetch_limit: 2 });
    assert_eq!(page_window(Some(u64::MAX), 20), PageWindow { limit: u64::MAX, fetch_limit: i64::MAX });
    assert_eq!(take_page(vec![1, 2, 3], 2), (vec![1, 2], true));
    assert_eq!(take_page(vec![1, 2], 2), (vec![1, 2], false));
    assert_eq!(take_page(Vec::<u8>::new(), 1), (vec![], false));
}

#[test]
fn failover_steps() {
    assert_eq!(failover_start(0), FailoverStep::Fail(LLMurError::NotAuthorized));
    assert_eq!(failover_start(2), FailoverStep::Try(0));
    assert!(attempt_succeeded(201, false));
    assert!(!attempt_succeeded(200, true));
    assert!(!attempt_succeeded(502, false));
    assert_eq!(failover_next(0, 2, false), FailoverStep::Try(1));
    assert_eq!(failover_next(1, 2, false), FailoverStep::Fail(LLMurError::UpstreamUnavailable));
    assert_eq!(failover_next(1, 2, true), FailoverStep::Answer(1));
}

#[test]
fn failover_answers_the_first_success() {
    let outcomes = [false, true, true];
    let mut step = failover_start(outcomes.len());
    let answer = loop {
        match step {
            FailoverStep::Try(i) => step = failover_next(i, outcomes.len(), outcomes[i]),
            other => break other,
        }
    };
    assert_eq!(answer, FailoverStep::Answer(1));
}

#[test]
fn attempt_logs() {
    let l = attempt_log(2, Some((5, 6)), 200);
    assert_eq!(l.attempt_number, 2);
    assert_eq!(l.input_tokens, Some(5));
    assert_eq!(l.output_tokens, Some(6));
    assert_eq!(l.http_status_code, 200);
    assert_eq!(attempt_log(0, None, 503).input_tokens, None);
}

#[test]
fn nullable_fields() {
    assert_eq!(normalize_nullable(NullableField::<u8>::Missing), None);
    assert_eq!(normalize_nullable(NullableField::<u8>::Null), Some(None));
    assert_eq!(normalize_nullable(NullableField::Value(3u8)), Some(Some(3)));
    assert_eq!(NullableField::<u8>::default(), NullableField::Missing);
}

#[test]
fn ids_from_text() {
    assert_eq!(id_or_bad_request(Some(7), "bad"), Ok(7));
    assert_eq!(id_or_bad_request(None, "bad"), Err(LLMurError::BadRequest("bad".to_string())));
    let text = "01234567-89ab-cdef-0123-456789abcdef";
    let value = 0x0123_4567_89ab_cdef_0123_4567_89ab_cdefu128;
    assert_eq!(parse_bad_request(text, "m"), Ok(value));
    assert_eq!(parse_virtual_batch_id(text), Ok(VirtualBatchId(value)));
    assert_eq!(parse_virtual_file_id(text), Ok(VirtualFileId(value)));
    assert_eq!(
        parse_virtual_batch_id("nope"),
        Err(LLMurError::BadRequest("Invalid batch id value.".to_string()))
    );
    assert_eq!(
        parse_virtual_file_id("12"),
        Err(LLMurError::BadRequest("Invalid file id value.".to_string()))
    );
}

#[test]
fn embeddings_token_input_needs_openai() {
    let request = |input| EmbeddingsRequest {
        input,
        model: "m".to_string(),
        encoding_format: None,
        dimensions: None,
        user: None,
    };
    assert_eq!(check_embeddings_input(&request(EmbeddingsRequestInput::ArrayInt(vec![1, 2])), &openai_info()), Ok(()));
    assert_eq!(
        check_embeddings_input(&request(EmbeddingsRequestInput::ArrayArrayInt(vec![vec![1]])), &azure_info()),
        Err(ProxyRequestError {
            status_code: 400,
            message: "Token array embeddings input is only supported for OpenAI connections.".to_string(),
        })
    );
    assert_eq!(
        check_embeddings_input(&request(EmbeddingsRequestInput::String("hi".to_string())), &gemini_info()),
        Ok(())
    );
}

#[test]
fn connection_views() {
    let c = Connection { id: ConnectionId(4), connection_info: azure_info() };
    match GetConnectionResult::from(c) {
        GetConnectionResult::AzureOpenAi { id, deployment_name, api_key, .. } => {
            assert_eq!(id, ConnectionId(4));
            assert_eq!(deployment_name, "dep");
            assert_eq!(api_key, "az-1");
        }
        other => panic!("unexpected {:?}", other),
    }
    let g = Connection { id: ConnectionId(5), connection_info: gemini_info() };
    assert!(matches!(GetConnectionResult::from(g), GetConnectionResult::Gemini { .. }));
}

#[test]
fn responder_wraps_the_outcome() {
    let ok = OpenAiCompatibleResponse::new(Ok::<u8, ProxyRequestError>(1));
    assert_eq!(ok.clone().result, Ok(1));
    let err = OpenAiCompatibleResponse::<u8>::new(Err(ProxyRequestError { status_code: 404, message: "x".to_string() }));
    assert_eq!(err.result.unwrap_err().status_code, 404);
}

fn header_pairs(h: &[(String, String)]) -> Vec<(&str, &str)> {
    h.iter().map(|(a, b)| (a.as_str(), b.as_str())).collect()
}

#[test]
fn proxied_openai_calls() {
    let c = proxy_call(&openai_info(), ProxyEndpoint::ChatCompletions, true, "", "");
    assert_eq!(c.url, "https://api.openai.com//v1/chat/completions");
    assert_eq!(
        header_pairs(&c.headers),
        vec![
            ("Authorization", "Bearer sk-1"),
            ("Content-Type", "application/json"),
            ("Accept", "text/event-stream"),
        ]
    );
    let e = proxy_call(&openai_info(), ProxyEndpoint::Embeddings, true, "", "");
    assert_eq!(e.url, "https://api.openai.com//v1/embeddings");
    assert_eq!(e.headers.len(), 2);
}

#[test]
fn proxied_azure_calls() {
    let c = proxy_call(&azure_info(), ProxyEndpoint::Responses, false, "", "");
    assert_eq!(c.url, "https://x.openai.azure.com/openai/v1/responses");
    assert_eq!(
        header_pairs(&c.headers),
        vec![("api-key", "az-1"), ("Content-Type", "application/json")]
    );
    let e = proxy_call(&azure_info(), ProxyEndpoint::Embeddings, false, "", "2024-10-21");
    assert_eq!(
        e.url,
        "https://x.openai.azure.com///openai/deployments/dep/embeddings?api-version=2024-10-21"
    );
}

#[test]
fn proxied_gemini_calls() {
    let base = "https://generativelanguage.googleapis.com/v1beta/models/gemini-1.5-flash";
    let s = proxy_call(&gemini_info(), ProxyEndpoint::ChatCompletions, true, "gemini-1.5-flash", "");
    assert_eq!(s.url, format!("{}:streamGenerateContent?alt=sse&key=g-1", base));
    assert_eq!(
        header_pairs(&s.headers),
        vec![("Content-Type", "application/json"), ("Accept", "text/event-stream")]
    );
    let n = proxy_call(&gemini_info(), ProxyEndpoint::Responses, false, "gemini-1.5-flash", "");
    assert_eq!(n.url, format!("{}:generateContent?key=g-1", base));
    let e = proxy_call(&gemini_info(), ProxyEndpoint::Embeddings, true, "gemini-1.5-flash", "");
    assert_eq!(e.url, format!("{}:embedContent?key=g-1", base));
    assert_eq!(e.headers.len(), 1);
}

#[test]
fn stream_flag_defaults() {
    assert_eq!(stream_flags(None, None), (false, false));
    assert_eq!(stream_flags(Some(true), Some(true)), (true, true));
    assert_eq!(stream_flags(Some(false), None), (false, false));
}

#[test]
fn provider_reply_readings() {
    assert_eq!(read_provider_reply(true, true, true), ReplyReading::Decoded);
    assert_eq!(read_provider_reply(true, false, true), ReplyReading::Json);
    assert_eq!(read_provider_reply(false, false, true), ReplyReading::ErrorJson);
    assert_eq!(read_provider_reply(false, true, false), ReplyReading::ErrorText);
}
