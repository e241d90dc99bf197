use llmur::batch_fanout::virtual_batch_to_batch_object;
use llmur::batch_ops::{
    check_batch_access, check_batch_input_file, check_provider_batch_endpoint,
    reconcile_provider_batch, summarize_provider_batches,
};
use llmur::batch_rules::{batch_endpoint_metric_label, batch_status_metric_label};
use llmur::batch_types::{
    BatchEndpoint, BatchObject, BatchObjectType, BatchRequestCounts, BatchStatus,
    CompletionWindow, VirtualBatchCompletionWindow, VirtualBatchEndpoint,
    VirtualBatchRequestCounts, VirtualBatchStatus,
};
use llmur::errors::LLMurError;
use llmur::ids::{DeploymentId, ProviderBatchId, VirtualBatchId, VirtualFileId, VirtualKeyId};
use llmur::providers::{AzureOpenAiApiVersion, GeminiApiVersion, ProviderConnection};
use llmur::records::{
    FilePurpose, ProviderBatch, ProviderFileReference, VirtualBatch, VirtualFile, VirtualFileKind,
};

fn message<T: std::fmt::Debug>(r: Result<T, LLMurError>) -> String {
    match r {
        Err(LLMurError::BadRequest(m)) => m,
        other => panic!("expected a bad request, got {:?}", other),
    }
}

fn input_file(key: u128, purpose: FilePurpose, parts: Option<usize>) -> VirtualFile {
    VirtualFile {
        id: VirtualFileId(1),
        virtual_key_id: VirtualKeyId(key),
        purpose,
        filename: "in.jsonl".to_string(),
        bytes: 10,
        kind: VirtualFileKind::Input,
        batch_id: None,
        line_count: Some(2),
        provider_files: parts.map(|n| {
            (0..n)
                .map(|i| ProviderFileReference {
                    provider: "openai/v1".to_string(),
                    deployment_id: DeploymentId(i as u128),
                    provider_file_id: format!("file-{}", i),
                })
                .collect()
        }),
        line_map: None,
        created_at: 0,
        expires_at: None,
    }
}

fn batch_object(status: BatchStatus, counts: Option<BatchRequestCounts>) -> BatchObject {
    BatchObject {
        id: "batch_1".to_string(),
        object: BatchObjectType::Batch,
        endpoint: BatchEndpoint::ChatCompletions,
        errors: None,
        input_file_id: "file-in".to_string(),
        completion_window: CompletionWindow::Hours24,
        status,
        output_file_id: None,
        error_file_id: None,
        created_at: 100,
        in_progress_at: Some(110),
        expires_at: None,
        finalizing_at: None,
        completed_at: None,
        failed_at: None,
        expired_at: None,
        cancelling_at: None,
        cancelled_at: None,
        request_counts: counts,
        metadata: None,
    }
}

fn virtual_batch() -> VirtualBatch {
    VirtualBatch {
        id: VirtualBatchId(0x0123_4567_89ab_cdef_0123_4567_89ab_cdef),
        virtual_key_id: VirtualKeyId(9),
        input_file_id: VirtualFileId(1),
        endpoint: VirtualBatchEndpoint::Embeddings,
        completion_window: VirtualBatchCompletionWindow::Hours24,
        status: VirtualBatchStatus::InProgress,
        request_counts: Some(VirtualBatchRequestCounts { total: 4, completed: -1, failed: 1 }),
        metadata: None,
        output_file_id: None,
        error_file_id: Some(VirtualFileId(2)),
        created_at: -5,
        in_progress_at: Some(7),
        expires_at: None,
        finalizing_at: None,
        completed_at: None,
        failed_at: None,
        expired_at: None,
        cancelling_at: None,
        cancelled_at: None,
    }
}

#[test]
fn input_file_checks_in_order() {
    let key = VirtualKeyId(9);
    assert_eq!(message(check_batch_input_file(None, key)), "Input file was not found.");
    let other = input_file(8, FilePurpose::Batch, Some(1));
    assert_eq!(
        message(check_batch_input_file(Some(&other), key)),
        "Input file does not belong to this virtual key."
    );
    let wrong = input_file(9, FilePurpose::UserData, Some(1));
    assert_eq!(message(check_batch_input_file(Some(&wrong), key)), "Input file is not a batch file.");
    let bare = input_file(9, FilePurpose::Batch, Some(0));
    assert_eq!(
        message(check_batch_input_file(Some(&bare), key)),
        "Input file is missing provider file references."
    );
    let none = input_file(9, FilePurpose::Batch, None);
    assert!(check_batch_input_file(Some(&none), key).is_err());
    let good = input_file(9, FilePurpose::Batch, Some(2));
    assert_eq!(check_batch_input_file(Some(&good), key), Ok(()));
}

#[test]
fn batch_access_needs_the_creating_key() {
    let b = virtual_batch();
    assert_eq!(message(check_batch_access(None, VirtualKeyId(9))), "Batch was not found.");
    assert_eq!(
        message(check_batch_access(Some(&b), VirtualKeyId(1))),
        "Batch does not belong to this virtual key."
    );
    assert_eq!(check_batch_access(Some(&b), VirtualKeyId(9)), Ok(()));
}

#[test]
fn provider_batch_endpoints() {
    let openai = ProviderConnection::OpenAi { api_key: "k".to_string(), api_endpoint: "e".to_string() };
    let azure = ProviderConnection::Azure {
        api_key: "k".to_string(),
        api_endpoint: "e".to_string(),
        api_version: AzureOpenAiApiVersion::V1,
    };
    let gemini = ProviderConnection::Gemini {
        api_key: "k".to_string(),
        api_endpoint: "e".to_string(),
        api_version: GeminiApiVersion::V1BETA,
        model: "m".to_string(),
    };
    assert_eq!(check_provider_batch_endpoint(&openai, &BatchEndpoint::Completions), Ok(()));
    assert_eq!(check_provider_batch_endpoint(&azure, &BatchEndpoint::Embeddings), Ok(()));
    assert_eq!(
        message(check_provider_batch_endpoint(&azure, &BatchEndpoint::Responses)),
        "Azure OpenAI batches support /v1/chat/completions and /v1/embeddings only."
    );
    assert_eq!(check_provider_batch_endpoint(&gemini, &BatchEndpoint::Responses), Ok(()));
    assert_eq!(
        message(check_provider_batch_endpoint(&gemini, &BatchEndpoint::Embeddings)),
        "Gemini batches support /v1/chat/completions and /v1/responses only."
    );
}

#[test]
fn reconcile_keeps_persisted_files_and_normalises_counts() {
    let provider = ProviderBatch {
        id: ProviderBatchId(1),
        virtual_batch_id: VirtualBatchId(2),
        provider: "openai/v1".to_string(),
        deployment_id: DeploymentId(3),
        provider_batch_id: "batch_1".to_string(),
        status: VirtualBatchStatus::InProgress,
        request_counts: None,
        output_file_id: Some("file-out".to_string()),
        error_file_id: None,
    };
    let reported = batch_object(BatchStatus::Completed, Some(BatchRequestCounts { total: 2, completed: 0, failed: 0 }));
    let (b, update) = reconcile_provider_batch(&provider, reported, Some(2));
    assert_eq!(b.output_file_id, Some("file-out".to_string()));
    assert_eq!(b.error_file_id, None);
    assert_eq!(b.request_counts, Some(BatchRequestCounts { total: 2, completed: 2, failed: 0 }));
    assert_eq!(update, None);
    assert_eq!(b.status, BatchStatus::Completed);
}

#[test]
fn summary_of_provider_batches() {
    let a = batch_object(BatchStatus::InProgress, Some(BatchRequestCounts { total: 3, completed: 1, failed: 0 }));
    let mut b = batch_object(BatchStatus::Completed, Some(BatchRequestCounts { total: 2, completed: 2, failed: 0 }));
    b.in_progress_at = Some(150);
    let s = summarize_provider_batches(&[a.clone(), b]);
    assert_eq!(s.status, VirtualBatchStatus::InProgress);
    assert_eq!(s.request_counts, Some(VirtualBatchRequestCounts { total: 5, completed: 3, failed: 0 }));
    assert_eq!(s.timestamps.in_progress_at, Some(150));
    let failed = batch_object(BatchStatus::Failed, None);
    let s2 = summarize_provider_batches(&[a, failed]);
    assert_eq!(s2.status, VirtualBatchStatus::Failed);
    assert_eq!(s2.request_counts, None);
    assert_eq!(s2.timestamps.completed_at, None);
}

#[test]
fn virtual_batch_as_surface_object() {
    let o = virtual_batch_to_batch_object(&virtual_batch());
    assert_eq!(o.id, "01234567-89ab-cdef-0123-456789abcdef");
    assert_eq!(o.endpoint, BatchEndpoint::Embeddings);
    assert_eq!(o.status, BatchStatus::InProgress);
    assert_eq!(o.created_at, 0);
    assert_eq!(o.in_progress_at, Some(7));
    assert_eq!(o.request_counts, Some(BatchRequestCounts { total: 4, completed: 0, failed: 1 }));
    assert_eq!(o.output_file_id, None);
    assert_eq!(o.error_file_id, Some("00000000-0000-0000-0000-000000000002".to_string()));
    assert_eq!(o.input_file_id, "00000000-0000-0000-0000-000000000001");
}

#[test]
fn metric_labels() {
    assert_eq!(batch_status_metric_label(&BatchStatus::InProgress), "in_progress");
    assert_eq!(batch_status_metric_label(&BatchStatus::Cancelled), "cancelled");
    assert_eq!(batch_endpoint_metric_label(&BatchEndpoint::ChatCompletions), "/v1/chat/completions");
}
