use llmur::batch_types::VirtualBatchEndpoint;
use llmur::output_lines::{normalize_openai_batch_output_content, normalize_output_line, read_output_line};
use llmur::providers::{AzureOpenAiApiVersion, ConnectionInfo, ConnectionKind};
use serde_json::Value as JsonValue;

#[test]
fn normalize_openai_batch_output_content_adds_missing_batch_fields() {
    let content = "{\"custom_id\":\"req-1\",\"response\":{\"status_code\":200,\"body\":{\"id\":\"abc\"}},\"error\":null}\n\n";
    let normalized = normalize_openai_batch_output_content(content, None, None, None);
    let line = normalized.lines().next().unwrap();
    let value: JsonValue = serde_json::from_str(line).unwrap();

    assert_eq!(
        value.get("id").and_then(|value| value.as_str()),
        Some("batch_req_req-1")
    );
    assert!(value.get("response").is_some());
    assert!(value.get("error").is_some());
}

#[test]
fn normalize_openai_batch_output_content_overrides_response_model() {
    let content = "{\"id\":\"batch_req_req-1\",\"custom_id\":\"req-1\",\"response\":{\"status_code\":200,\"body\":{\"id\":\"chatcmpl-1\",\"model\":\"provider-model\"}},\"error\":null}\n";
    let normalized =
        normalize_openai_batch_output_content(content, Some("deployment-model"), None, None);
    let line = normalized.lines().next().unwrap();
    let value: JsonValue = serde_json::from_str(line).unwrap();

    let model = value
        .get("response")
        .and_then(|value| value.get("body"))
        .and_then(|value| value.get("model"))
        .and_then(|value| value.as_str());
    assert_eq!(model, Some("deployment-model"));
}

#[test]
fn normalize_openai_batch_output_content_non_failing_when_body_parse_fails() {
    let content = "{\"custom_id\":\"req-1\",\"response\":{\"status_code\":200,\"body\":{\"unexpected\":\"shape\"}},\"error\":null}\n";
    let connection_info = ConnectionInfo::OpenAiApiKey {
        api_key: "key".to_string(),
        api_endpoint: "https://api.openai.com".to_string(),
        model: "gpt-4o-mini".to_string(),
    };

    let normalized = normalize_openai_batch_output_content(
        content,
        Some("deployment-model"),
        Some(&VirtualBatchEndpoint::ChatCompletions),
        Some(&connection_info),
    );
    let line = normalized.lines().next().unwrap();
    let value: JsonValue = serde_json::from_str(line).unwrap();

    let body = value
        .get("response")
        .and_then(|value| value.get("body"))
        .expect("body");
    assert_eq!(
        body.get("unexpected").and_then(|value| value.as_str()),
        Some("shape")
    );
    assert_eq!(
        body.get("model").and_then(|value| value.as_str()),
        Some("deployment-model")
    );
}

#[test]
fn normalize_openai_batch_output_content_backfills_usage_detail_fields_for_chat_completions() {
    let content = "{\"custom_id\":\"req-1\",\"response\":{\"status_code\":200,\"body\":{\"id\":\"chatcmpl-1\",\"object\":\"chat.completion\",\"created\":1,\"model\":\"provider-model\",\"choices\":[{\"finish_reason\":\"stop\",\"index\":0,\"message\":{\"role\":\"assistant\",\"content\":\"hi\"},\"logprobs\":null}],\"usage\":{\"completion_tokens\":1,\"completion_tokens_details\":{\"reasoning_tokens\":2},\"prompt_tokens\":3,\"total_tokens\":4}}},\"error\":null}\n";
    let connection_info = ConnectionInfo::OpenAiApiKey {
        api_key: "key".to_string(),
        api_endpoint: "https://api.openai.com".to_string(),
        model: "gpt-4o-mini".to_string(),
    };

    let normalized = normalize_openai_batch_output_content(
        content,
        Some("deployment-model"),
        Some(&VirtualBatchEndpoint::ChatCompletions),
        Some(&connection_info),
    );
    let line = normalized.lines().next().unwrap();
    let value: JsonValue = serde_json::from_str(line).unwrap();
    let usage = value
        .get("response")
        .and_then(|value| value.get("body"))
        .and_then(|value| value.get("usage"))
        .expect("usage");

    assert_eq!(
        usage["completion_tokens_details"]["accepted_prediction_tokens"],
        0
    );
    assert_eq!(usage["completion_tokens_details"]["audio_tokens"], 0);
    assert_eq!(usage["completion_tokens_details"]["reasoning_tokens"], 2);
    assert_eq!(
        usage["completion_tokens_details"]["rejected_prediction_tokens"],
        0
    );
    assert_eq!(usage["prompt_tokens_details"]["audio_tokens"], 0);
    assert_eq!(usage["prompt_tokens_details"]["cached_tokens"], 0);
}

#[test]
fn non_json_lines_pass_through_trimmed() {
    assert_eq!(
        normalize_openai_batch_output_content("  not json  \n\n{\"a\":1}\n", None, None, None),
        "not json\n{\"a\":1}\n"
    );
    assert_eq!(normalize_openai_batch_output_content("\n  \n", None, None, None), "");
    assert_eq!(normalize_output_line("[1, 2]", Some("m"), None, None), "[1,2]");
}

#[test]
fn output_line_fields_are_read() {
    let f = read_output_line("{\"custom_id\":\"c\",\"id\":\" \",\"response\":{\"body\":{}}}").unwrap();
    assert!(f.is_object && f.has_response && f.has_response_body && !f.has_error);
    assert_eq!(f.custom_id.as_deref(), Some("c"));
    assert_eq!(f.id.as_deref(), Some(" "));
    assert!(read_output_line("nope").is_none());
    let g = read_output_line("{\"response\":null}").unwrap();
    assert!(g.has_response && !g.has_response_body);
}

#[test]
fn existing_null_detail_is_zeroed_and_others_kept() {
    let line = "{\"custom_id\":\"x\",\"id\":\"keep\",\"response\":{\"body\":{\"usage\":{\"prompt_tokens_details\":{\"cached_tokens\":null,\"audio_tokens\":5}}}},\"error\":{\"code\":\"e\"}}";
    let out = normalize_output_line(line, None, Some(VirtualBatchEndpoint::ChatCompletions), None);
    let v: JsonValue = serde_json::from_str(&out).unwrap();
    assert_eq!(v["id"], "keep");
    assert_eq!(v["error"]["code"], "e");
    assert_eq!(v["response"]["body"]["usage"]["prompt_tokens_details"]["cached_tokens"], 0);
    assert_eq!(v["response"]["body"]["usage"]["prompt_tokens_details"]["audio_tokens"], 5);
    assert_eq!(v["response"]["body"]["usage"]["completion_tokens_details"]["audio_tokens"], 0);
    assert!(v["response"]["body"].get("model").is_none());
}

#[test]
fn normalize_openai_batch_output_content_strips_azure_extra_fields_when_strict_enabled() {
    let content = "{\"custom_id\":\"req-1\",\"response\":{\"status_code\":200,\"body\":{\"id\":\"chatcmpl-1\",\"object\":\"chat.completion\",\"created\":1,\"model\":\"azure-provider-model\",\"choices\":[{\"finish_reason\":\"stop\",\"index\":0,\"message\":{\"role\":\"assistant\",\"content\":\"hi\"},\"logprobs\":null,\"content_filter_results\":{\"hate\":{\"filtered\":false,\"severity\":\"safe\"}}}],\"usage\":{\"completion_tokens\":1,\"prompt_tokens\":1,\"total_tokens\":2},\"prompt_filter_results\":[{\"prompt_index\":0,\"content_filter_results\":{\"hate\":{\"filtered\":false,\"severity\":\"safe\"}}}] }},\"error\":null}\n";
    let connection_info = ConnectionInfo::AzureOpenAiApiKey {
        api_key: "key".to_string(),
        api_endpoint: "https://example.openai.azure.com".to_string(),
        api_version: AzureOpenAiApiVersion::V1,
        deployment_name: "azure-deployment".to_string(),
    };

    let normalized = normalize_openai_batch_output_content(
        content,
        Some("deployment-model"),
        Some(&VirtualBatchEndpoint::ChatCompletions),
        Some(&connection_info),
    );
    let line = normalized.lines().next().unwrap();
    let value: JsonValue = serde_json::from_str(line).unwrap();

    let body = value
        .get("response")
        .and_then(|value| value.get("body"))
        .expect("body");
    assert_eq!(
        body.get("model").and_then(|value| value.as_str()),
        Some("deployment-model")
    );
    assert!(
        body.get("prompt_filter_results").is_none(),
        "strict normalization should remove Azure-only prompt filter metadata"
    );
    assert!(
        body.get("choices")
            .and_then(|choices| choices.get(0))
            .and_then(|choice| choice.get("content_filter_results"))
            .is_none(),
        "strict normalization should remove Azure-only choice filter metadata"
    );
}

#[test]
fn strict_azure_chat_strips_filters_from_every_choice_and_keeps_the_rest() {
    let line = "{\"custom_id\":\"a\",\"id\":\"x\",\"response\":{\"body\":{\"model\":\"p\",\"prompt_filter_results\":[],\"choices\":[{\"index\":0,\"content_filter_results\":{}},{\"index\":1,\"content_filter_results\":{},\"logprobs\":null}],\"usage\":{\"prompt_tokens\":1}}},\"error\":null}";
    let out = normalize_output_line(
        line,
        Some("dep"),
        Some(VirtualBatchEndpoint::ChatCompletions),
        Some(ConnectionKind::AzureOpenAi),
    );
    let v: JsonValue = serde_json::from_str(&out).unwrap();
    let body = &v["response"]["body"];
    assert_eq!(body["model"], "dep");
    assert!(body.get("prompt_filter_results").is_none());
    assert!(body["choices"][0].get("content_filter_results").is_none());
    assert!(body["choices"][1].get("content_filter_results").is_none());
    assert_eq!(body["choices"][1]["index"], 1);
    assert!(body["choices"][1].get("logprobs").is_some());
    assert_eq!(body["usage"]["prompt_tokens_details"]["cached_tokens"], 0);
}

#[test]
fn strict_reading_keeps_filters_outside_azure_chat_completions() {
    let line = "{\"custom_id\":\"a\",\"id\":\"x\",\"response\":{\"body\":{\"model\":\"p\",\"prompt_filter_results\":[]}},\"error\":null}";
    let openai = normalize_output_line(
        line,
        Some("dep"),
        Some(VirtualBatchEndpoint::ChatCompletions),
        Some(ConnectionKind::OpenAi),
    );
    let v: JsonValue = serde_json::from_str(&openai).unwrap();
    assert_eq!(v["response"]["body"]["model"], "dep");
    assert!(v["response"]["body"].get("prompt_filter_results").is_some());

    let azure_embeddings = normalize_output_line(
        line,
        Some("dep"),
        Some(VirtualBatchEndpoint::Embeddings),
        Some(ConnectionKind::AzureOpenAi),
    );
    let v: JsonValue = serde_json::from_str(&azure_embeddings).unwrap();
    assert_eq!(v["response"]["body"]["model"], "dep");
    assert!(v["response"]["body"].get("prompt_filter_results").is_some());

    let no_connection = normalize_output_line(line, Some("dep"), Some(VirtualBatchEndpoint::ChatCompletions), None);
    let v: JsonValue = serde_json::from_str(&no_connection).unwrap();
    assert_eq!(v["response"]["body"]["model"], "dep");
    assert!(v["response"]["body"].get("prompt_filter_results").is_some());
}

#[test]
fn connection_kind_of_each_connection() {
    let azure = ConnectionInfo::AzureOpenAiApiKey {
        api_key: "k".to_string(),
        api_endpoint: "e".to_string(),
        api_version: AzureOpenAiApiVersion::V1,
        deployment_name: "d".to_string(),
    };
    let openai = ConnectionInfo::OpenAiApiKey { api_key: "k".to_string(), api_endpoint: "e".to_string(), model: "m".to_string() };
    assert_eq!(azure.kind(), ConnectionKind::AzureOpenAi);
    assert_eq!(openai.kind(), ConnectionKind::OpenAi);
}
