use llmur::batch_lines::{
    batch_file_text, batch_line_endpoint, batch_line_message, batch_line_method,
    check_batch_line_count, check_batch_line_text, check_batch_lines, output_content_lines, plan_batch_line,
    trimmed_batch_lines, BatchLineFormat,
};
use llmur::batch_types::{BatchEndpoint, BatchStatus, VirtualBatchStatus};
use llmur::errors::LLMurError;
use llmur::ids::{DeploymentId, VirtualBatchId, VirtualFileId, VirtualKeyId};
use llmur::line_map::{build_line_map, group_batch_lines, reconstruct_mapped_lines};
use llmur::providers::{AzureOpenAiApiVersion, ConnectionInfo, GeminiApiVersion};
use llmur::records::{
    FilePurpose, ProviderBatch, ProviderFileReference, VirtualFile, VirtualFileKind,
    VirtualFileLineMapEntry,
};
use llmur::request_totals::{expected_provider_request_totals, expected_total_for};
use llmur::result_files::{
    plan_virtual_error_file, plan_virtual_output_file, total_file_bytes, ErrorFilePlan,
    OutputFilePlan,
};
use llmur::text::{join_lines_newline_terminated, split_lines};
use llmur::virtual_files::{
    concatenate_provider_contents, content_provider_files, is_virtual_list_request,
    owned_virtual_file, provider_content_treatment, provider_input_file_id,
    virtual_file_to_file_object, ContentTreatment, LogAttempts,
};
use llmur::batch_types::{
    BatchObject, BatchObjectType, CompletionWindow, VirtualBatchEndpoint,
};
use llmur::records::{FileObjectType, FileStatus};

fn bad_request(r: Result<impl std::fmt::Debug, LLMurError>) -> String {
    match r {
        Err(LLMurError::BadRequest(m)) => m,
        other => panic!("expected a bad request, got {:?}", other),
    }
}

fn openai() -> ConnectionInfo {
    ConnectionInfo::OpenAiApiKey {
        api_key: "k".to_string(),
        api_endpoint: "https://api.openai.com/".to_string(),
        model: "gpt-4o-mini".to_string(),
    }
}

fn azure() -> ConnectionInfo {
    ConnectionInfo::AzureOpenAiApiKey {
        api_key: "k".to_string(),
        api_endpoint: "https://x.openai.azure.com".to_string(),
        api_version: AzureOpenAiApiVersion::V1,
        deployment_name: "my-deployment".to_string(),
    }
}

fn gemini() -> ConnectionInfo {
    ConnectionInfo::GeminiApiKey {
        api_key: "k".to_string(),
        api_endpoint: "https://generativelanguage.googleapis.com".to_string(),
        api_version: GeminiApiVersion::V1BETA,
        model: "gemini-2.0-flash".to_string(),
    }
}

#[test]
fn batch_lines_are_trimmed() {
    let lines = trimmed_batch_lines("  {\"a\":1}  \r\n{\"b\":2}\n");
    assert_eq!(lines, vec!["{\"a\":1}".to_string(), "{\"b\":2}".to_string()]);
    let with_blank = trimmed_batch_lines("{\"a\":1}\n   \n{\"b\":2}\n");
    assert_eq!(with_blank, vec!["{\"a\":1}".to_string(), String::new(), "{\"b\":2}".to_string()]);
}

#[test]
fn empty_batch_line_is_refused() {
    assert_eq!(bad_request(check_batch_line_text(2, "")), "Batch line 2 is empty.");
    assert_eq!(check_batch_line_text(1, "{}"), Ok(()));
}

#[test]
fn batch_file_must_be_utf8_with_lines() {
    assert_eq!(batch_file_text(b"{\"a\":1}\n"), Ok("{\"a\":1}\n"));
    assert_eq!(bad_request(batch_file_text(b"\xff\xfe")), "Batch file must be valid UTF-8 JSONL.");
    assert_eq!(bad_request(check_batch_line_count(0)), "Batch file must include at least one JSONL line.");
    assert_eq!(check_batch_line_count(3), Ok(()));
}

#[test]
fn output_content_lines_skips_empty_lines() {
    let lines = output_content_lines("{\"x\":1}\n\n  \n {\"y\":2} \n");
    assert_eq!(lines, vec!["{\"x\":1}".to_string(), "{\"y\":2}".to_string()]);
}

#[test]
fn batch_line_message_numbers_the_line() {
    assert_eq!(batch_line_message(12, " is empty."), "Batch line 12 is empty.");
}

#[test]
fn batch_line_method_upper_cases_post() {
    assert_eq!(batch_line_method(1, "req-1", "post").unwrap(), "POST");
}

#[test]
fn batch_line_method_refuses_missing_custom_id() {
    let err = bad_request(batch_line_method(3, "   ", "POST"));
    assert_eq!(err, "Batch line 3 must include custom_id.");
}

#[test]
fn batch_line_method_refuses_get() {
    let err = bad_request(batch_line_method(4, "req-4", "get"));
    assert_eq!(err, "Batch line 4 method must be POST.");
}

#[test]
fn batch_line_endpoint_routes_known_urls() {
    assert_eq!(batch_line_endpoint(1, "/v1/responses").unwrap(), BatchEndpoint::Responses);
    assert_eq!(batch_line_endpoint(1, "/v1/chat/completions").unwrap(), BatchEndpoint::ChatCompletions);
    assert_eq!(batch_line_endpoint(1, "/v1/embeddings").unwrap(), BatchEndpoint::Embeddings);
    assert_eq!(batch_line_endpoint(1, "/v1/completions").unwrap(), BatchEndpoint::Completions);
}

#[test]
fn batch_line_endpoint_refuses_unknown_url() {
    let err = bad_request(batch_line_endpoint(7, "/v1/images"));
    assert_eq!(err, "Batch line 7 has unsupported url '/v1/images'.");
}

#[test]
fn plan_batch_line_picks_model_and_shape() {
    let p = plan_batch_line(1, BatchEndpoint::ChatCompletions, &azure()).unwrap();
    assert_eq!(p.format, BatchLineFormat::OpenAi);
    assert_eq!(p.model, "my-deployment");
    let p = plan_batch_line(1, BatchEndpoint::Responses, &gemini()).unwrap();
    assert_eq!(p.format, BatchLineFormat::Gemini);
    assert_eq!(p.model, "gemini-2.0-flash");
    let p = plan_batch_line(1, BatchEndpoint::Completions, &openai()).unwrap();
    assert_eq!(p.format, BatchLineFormat::OpenAi);
    assert_eq!(p.model, "gpt-4o-mini");
}

#[test]
fn plan_batch_line_refuses_unsupported_combinations() {
    assert_eq!(
        bad_request(plan_batch_line(2, BatchEndpoint::Responses, &azure())),
        "Batch line 2 targets /v1/responses, which Azure OpenAI does not support for batches."
    );
    assert_eq!(
        bad_request(plan_batch_line(2, BatchEndpoint::Embeddings, &gemini())),
        "Batch line 2 targets /v1/embeddings, which Gemini does not support for batches yet."
    );
    assert_eq!(
        bad_request(plan_batch_line(2, BatchEndpoint::Completions, &azure())),
        "Batch line 2 targets /v1/completions, which Azure OpenAI does not support for batches."
    );
    assert_eq!(
        bad_request(plan_batch_line(2, BatchEndpoint::Completions, &gemini())),
        "Batch line 2 targets /v1/completions, which Gemini does not support."
    );
}

#[test]
fn provider_file_of_batch_lines_splits_back_into_them() {
    let lines = trimmed_batch_lines("a\n b \nc");
    let file = join_lines_newline_terminated(&lines);
    assert_eq!(file, "a\nb\nc\n");
    assert_eq!(split_lines(&file), lines);
}

fn entry(line: i32, provider: &str, dep: u128, file: &str, pline: i32) -> VirtualFileLineMapEntry {
    VirtualFileLineMapEntry {
        line_index: line,
        provider: provider.to_string(),
        deployment_id: DeploymentId(dep),
        provider_file_id: file.to_string(),
        provider_line_index: pline,
    }
}

#[test]
fn batch_file_round_trips_through_provider_files() {
    let keys = vec![
        ("openai/v1".to_string(), DeploymentId(1)),
        ("gemini".to_string(), DeploymentId(2)),
        ("openai/v1".to_string(), DeploymentId(1)),
    ];
    let lines = vec!["l0".to_string(), "l1".to_string(), "l2".to_string()];
    let groups = group_batch_lines(&keys, &lines);
    assert_eq!(groups.len(), 2);
    assert_eq!(groups[0].lines, vec!["l0".to_string(), "l2".to_string()]);
    let ids = vec!["file-a".to_string(), "files/b".to_string()];
    let map = build_line_map(&groups, &ids, 3).unwrap();
    assert_eq!(map[2].provider_file_id, "file-a");
    assert_eq!(map[2].provider_line_index, 1);
    let contents = vec![
        ("file-a".to_string(), groups[0].lines.clone()),
        ("files/b".to_string(), groups[1].lines.clone()),
    ];
    let rebuilt = reconstruct_mapped_lines(&map, Some(3), &contents).unwrap();
    assert_eq!(rebuilt, lines);
}

#[test]
fn reconstruct_reports_a_missing_line() {
    let map = vec![entry(0, "openai/v1", 1, "f", 0)];
    let contents = vec![("f".to_string(), vec!["x".to_string()])];
    let err = bad_request(reconstruct_mapped_lines(&map, Some(2), &contents));
    assert_eq!(err, "Virtual file reconstruction missing line 2.");
}

fn input_file(line_map: Option<Vec<VirtualFileLineMapEntry>>, provider_files: Option<Vec<ProviderFileReference>>) -> VirtualFile {
    VirtualFile {
        id: VirtualFileId(0x0123_4567_89ab_cdef_0123_4567_89ab_cdef),
        virtual_key_id: VirtualKeyId(9),
        purpose: FilePurpose::Batch,
        filename: "in.jsonl".to_string(),
        bytes: 42,
        kind: VirtualFileKind::Input,
        batch_id: None,
        line_count: Some(3),
        provider_files,
        line_map,
        created_at: -5,
        expires_at: Some(10),
    }
}

#[test]
fn expected_totals_count_lines_per_provider_deployment() {
    let map = vec![
        entry(0, "openai/v1", 1, "f", 0),
        entry(1, "gemini", 2, "g", 0),
        entry(2, "openai/v1", 1, "f", 1),
    ];
    let file = input_file(Some(map), None);
    let totals = expected_provider_request_totals(&file);
    assert_eq!(totals.len(), 2);
    assert_eq!(expected_total_for(&totals, "openai/v1", DeploymentId(1)), Some(2));
    assert_eq!(expected_total_for(&totals, "gemini", DeploymentId(2)), Some(1));
    assert_eq!(expected_total_for(&totals, "gemini", DeploymentId(1)), None);
}

#[test]
fn expected_totals_are_empty_without_line_map() {
    let file = input_file(None, None);
    assert!(expected_provider_request_totals(&file).is_empty());
}

fn batch_object(status: BatchStatus, output: Option<&str>, error: Option<&str>) -> BatchObject {
    BatchObject {
        id: "b".to_string(),
        object: BatchObjectType::Batch,
        endpoint: BatchEndpoint::ChatCompletions,
        errors: None,
        input_file_id: "in".to_string(),
        completion_window: CompletionWindow::Hours24,
        status,
        output_file_id: output.map(|s| s.to_string()),
        error_file_id: error.map(|s| s.to_string()),
        created_at: 0,
        in_progress_at: None,
        expires_at: None,
        finalizing_at: None,
        completed_at: None,
        failed_at: None,
        expired_at: None,
        cancelling_at: None,
        cancelled_at: None,
        request_counts: None,
        metadata: None,
    }
}

fn provider_batch(provider: &str, dep: u128) -> ProviderBatch {
    ProviderBatch {
        id: llmur::ids::ProviderBatchId(1),
        virtual_batch_id: VirtualBatchId(1),
        provider: provider.to_string(),
        deployment_id: DeploymentId(dep),
        provider_batch_id: "batch_x".to_string(),
        status: VirtualBatchStatus::Completed,
        request_counts: None,
        output_file_id: None,
        error_file_id: None,
    }
}

#[test]
fn output_file_plan_maps_lines_to_provider_outputs() {
    let refreshed = vec![
        (provider_batch("openai/v1", 1), batch_object(BatchStatus::Completed, Some("out-a"), None)),
        (provider_batch("gemini", 2), batch_object(BatchStatus::Completed, Some("files/out-b"), None)),
    ];
    let map = Some(vec![entry(0, "gemini", 2, "in-b", 0), entry(1, "openai/v1", 1, "in-a", 0)]);
    match plan_virtual_output_file(&VirtualBatchStatus::Completed, None, &refreshed, &map).unwrap() {
        OutputFilePlan::Create { provider_files, line_map } => {
            assert_eq!(provider_files.len(), 2);
            assert_eq!(provider_files[1].provider_file_id, "files/out-b");
            assert_eq!(line_map[0].provider_file_id, "files/out-b");
            assert_eq!(line_map[1].provider_file_id, "out-a");
            assert_eq!(line_map[1].line_index, 1);
        }
        other => panic!("expected a new output file, got {:?}", other),
    }
}

#[test]
fn output_file_plan_waits_for_every_provider_output() {
    let refreshed = vec![
        (provider_batch("openai/v1", 1), batch_object(BatchStatus::Completed, Some("out-a"), None)),
        (provider_batch("gemini", 2), batch_object(BatchStatus::Completed, None, None)),
    ];
    let map = Some(vec![entry(0, "gemini", 2, "in-b", 0)]);
    match plan_virtual_output_file(&VirtualBatchStatus::Completed, None, &refreshed, &map).unwrap() {
        OutputFilePlan::Keep(None) => {}
        other => panic!("expected no output file, got {:?}", other),
    }
}

#[test]
fn output_file_plan_keeps_terminal_persisted_and_hides_non_terminal() {
    let id = Some(VirtualFileId(5));
    match plan_virtual_output_file(&VirtualBatchStatus::Completed, id, &[], &None).unwrap() {
        OutputFilePlan::Keep(k) => assert_eq!(k, id),
        other => panic!("{:?}", other),
    }
    match plan_virtual_output_file(&VirtualBatchStatus::InProgress, id, &[], &None).unwrap() {
        OutputFilePlan::Keep(k) => assert_eq!(k, None),
        other => panic!("{:?}", other),
    }
}

#[test]
fn output_file_plan_errors() {
    let refreshed = vec![(provider_batch("openai/v1", 1), batch_object(BatchStatus::Completed, Some("out-a"), None))];
    assert_eq!(
        bad_request(plan_virtual_output_file(&VirtualBatchStatus::Completed, None, &refreshed, &None)),
        "Input file does not have a line map."
    );
    let map = Some(vec![entry(0, "gemini", 2, "in-b", 0)]);
    assert_eq!(
        bad_request(plan_virtual_output_file(&VirtualBatchStatus::Completed, None, &refreshed, &map)),
        "Missing provider output file for virtual output mapping."
    );
}

#[test]
fn error_file_plan_collects_provider_error_files() {
    let refreshed = vec![
        (provider_batch("openai/v1", 1), batch_object(BatchStatus::Completed, None, Some("err-a"))),
        (provider_batch("gemini", 2), batch_object(BatchStatus::Completed, None, None)),
    ];
    match plan_virtual_error_file(&VirtualBatchStatus::Completed, true, None, &refreshed) {
        ErrorFilePlan::Create { provider_files } => {
            assert_eq!(provider_files.len(), 1);
            assert_eq!(provider_files[0].provider_file_id, "err-a");
        }
        other => panic!("{:?}", other),
    }
    match plan_virtual_error_file(&VirtualBatchStatus::Completed, false, None, &refreshed) {
        ErrorFilePlan::Keep(None) => {}
        other => panic!("{:?}", other),
    }
    match plan_virtual_error_file(&VirtualBatchStatus::Failed, true, Some(VirtualFileId(3)), &refreshed) {
        ErrorFilePlan::Keep(Some(VirtualFileId(3))) => {}
        other => panic!("{:?}", other),
    }
}

#[test]
fn total_file_bytes_saturates_and_clamps() {
    assert_eq!(total_file_bytes(&[Some(10), None, Some(5)]), 15);
    assert_eq!(total_file_bytes(&[Some(i64::MAX as u64), Some(1)]), i64::MAX);
    assert_eq!(total_file_bytes(&[Some(u64::MAX)]), 0);
}

#[test]
fn virtual_file_shows_as_file_object() {
    let file = input_file(None, None);
    let object = virtual_file_to_file_object(&file);
    assert_eq!(object.id, "01234567-89ab-cdef-0123-456789abcdef");
    assert_eq!(object.bytes, 42);
    assert_eq!(object.created_at, 0);
    assert_eq!(object.expires_at, Some(10));
    assert_eq!(object.status, FileStatus::Uploaded);
    assert_eq!(object.object, FileObjectType::File);
    assert_eq!(object.purpose, FilePurpose::Batch);
}

#[test]
fn virtual_list_requests_are_batch_purposes() {
    assert!(is_virtual_list_request(&Some(FilePurpose::Batch)));
    assert!(is_virtual_list_request(&Some(FilePurpose::BatchOutput)));
    assert!(!is_virtual_list_request(&Some(FilePurpose::FineTune)));
    assert!(!is_virtual_list_request(&None));
}

#[test]
fn virtual_files_of_other_keys_are_hidden() {
    assert!(owned_virtual_file(Some(input_file(None, None)), VirtualKeyId(9)).is_some());
    assert!(owned_virtual_file(Some(input_file(None, None)), VirtualKeyId(8)).is_none());
}

#[test]
fn content_needs_provider_files() {
    let err = bad_request(content_provider_files(&input_file(None, None)).map(|v| v.len()));
    assert_eq!(err, "Virtual file does not have provider file references.");
}

#[test]
fn provider_input_file_falls_back_to_virtual_id() {
    let refs = vec![ProviderFileReference {
        provider: "gemini".to_string(),
        deployment_id: DeploymentId(2),
        provider_file_id: "files/in".to_string(),
    }];
    let file = input_file(None, Some(refs));
    assert_eq!(provider_input_file_id(&file, DeploymentId(2), VirtualFileId(1)), "files/in");
    assert_eq!(
        provider_input_file_id(&file, DeploymentId(3), VirtualFileId(1)),
        "00000000-0000-0000-0000-000000000001"
    );
}

#[test]
fn unmapped_content_concatenates_provider_lines() {
    let contents = vec!["a\nb\n".to_string(), "c".to_string()];
    assert_eq!(concatenate_provider_contents(&contents), "a\nb\nc\n");
    assert_eq!(concatenate_provider_contents(&[]), "");
}

#[test]
fn content_treatment_by_kind_and_provider() {
    assert_eq!(
        provider_content_treatment(VirtualFileKind::Input, Some(VirtualBatchEndpoint::ChatCompletions), &gemini()),
        ContentTreatment::AsIs
    );
    assert_eq!(
        provider_content_treatment(VirtualFileKind::Output, None, &gemini()),
        ContentTreatment::AsIs
    );
    assert_eq!(
        provider_content_treatment(VirtualFileKind::Error, Some(VirtualBatchEndpoint::ChatCompletions), &gemini()),
        ContentTreatment::Normalize { from_gemini: true }
    );
    assert_eq!(
        provider_content_treatment(VirtualFileKind::Output, Some(VirtualBatchEndpoint::Embeddings), &openai()),
        ContentTreatment::Normalize { from_gemini: false }
    );
}

#[test]
fn log_attempts_count_and_wrap() {
    let mut attempts = LogAttempts::new();
    assert_eq!(attempts.next_log_attempt(), 0);
    assert_eq!(attempts.next_log_attempt(), 1);
    for _ in 0..(i16::MAX as i32 - 2) {
        attempts.next_log_attempt();
    }
    assert_eq!(attempts.next_log_attempt(), i16::MAX);
    assert_eq!(attempts.next_log_attempt(), i16::MIN);
}

fn texts(ls: &[&str]) -> Vec<String> {
    ls.iter().map(|l| l.to_string()).collect()
}

#[test]
fn check_batch_lines_accepts_decoded_lines() {
    assert!(check_batch_lines(&texts(&["{}", "{\"a\":1}"]), &[None, None]).is_ok());
}

#[test]
fn check_batch_lines_reports_first_bad_line() {
    let r = check_batch_lines(
        &texts(&["{}", "oops", ""]),
        &[None, Some("expected value".to_string()), Some("eof".to_string())],
    );
    assert_eq!(bad_request(r), "Batch line 2 is not valid JSON: expected value");
}

#[test]
fn check_batch_lines_reports_empty_before_json() {
    let r = check_batch_lines(&texts(&["{}", "", "oops"]), &[None, Some("eof".to_string()), None]);
    assert_eq!(bad_request(r), "Batch line 2 is empty.");
}

#[test]
fn check_batch_lines_needs_a_line() {
    let r = check_batch_lines(&[], &[]);
    assert_eq!(bad_request(r), "Batch file must include at least one JSONL line.");
}
