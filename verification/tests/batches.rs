use llmur::batch_fanout::{
    canonical_provider_batch_id_update, merge_provider_file_reference,
    persisted_output_file_for_status,
};
use llmur::batch_rules::normalize_request_counts_for_batch_status;
use llmur::batch_surface::{
    normalize_batch_for_openai_surface, normalize_batch_for_openai_surface_with_metrics,
    SurfaceMetricEvent,
};
use llmur::batch_types::{
    BatchEndpoint, BatchObject, BatchObjectType, BatchRequestCounts, BatchStatus,
    CompletionWindow, VirtualBatchRequestCounts, VirtualBatchStatus,
};
use llmur::error_files::{
    has_valid_provider_error_file_reference, normalize_gemini_provider_file_id,
    should_materialize_error_file_from_signals,
};
use llmur::ids::{DeploymentId, VirtualFileId};
use uuid::Uuid;

#[test]
fn normalize_gemini_provider_file_id_accepts_valid_id() {
    let normalized = normalize_gemini_provider_file_id("files/output_abc-123").unwrap();
    assert_eq!(normalized, "files/output_abc-123");
}

#[test]
fn normalize_gemini_provider_file_id_extracts_from_url() {
    let normalized = normalize_gemini_provider_file_id(
        "https://generativelanguage.googleapis.com/v1beta/files/output_abc123?alt=media",
    )
    .unwrap();
    assert_eq!(normalized, "files/output_abc123");
}

#[test]
fn normalize_gemini_provider_file_id_rejects_oversized_ids() {
    let oversized = format!("files/{}", "a".repeat(129));
    assert!(normalize_gemini_provider_file_id(&oversized).is_err());
}

#[test]
fn normalize_request_counts_for_completed_status_fills_missing_completed() {
    let counts = Some(BatchRequestCounts {
        total: 1,
        completed: 0,
        failed: 0,
    });

    let normalized =
        normalize_request_counts_for_batch_status(&BatchStatus::Completed, &counts, Some(1))
            .unwrap();

    assert_eq!(normalized.total, 1);
    assert_eq!(normalized.completed, 1);
    assert_eq!(normalized.failed, 0);
}

#[test]
fn normalize_request_counts_for_completed_status_uses_expected_total_when_missing() {
    let normalized =
        normalize_request_counts_for_batch_status(&BatchStatus::Completed, &None, Some(2))
            .unwrap();

    assert_eq!(normalized.total, 2);
    assert_eq!(normalized.completed, 2);
    assert_eq!(normalized.failed, 0);
}

#[test]
fn normalize_request_counts_clamps_overreported_total_to_expected() {
    let counts = Some(BatchRequestCounts {
        total: 4,
        completed: 0,
        failed: 0,
    });

    let normalized =
        normalize_request_counts_for_batch_status(&BatchStatus::Validating, &counts, Some(2))
            .unwrap();

    assert_eq!(normalized.total, 2);
    assert_eq!(normalized.completed, 0);
    assert_eq!(normalized.failed, 0);
}

fn make_batch_object(
    status: BatchStatus,
    request_counts: Option<BatchRequestCounts>,
    output_file_id: Option<&str>,
    error_file_id: Option<&str>,
) -> BatchObject {
    BatchObject {
        id: "batch_1".to_string(),
        object: BatchObjectType::Batch,
        endpoint: BatchEndpoint::ChatCompletions,
        errors: None,
        input_file_id: "file_1".to_string(),
        completion_window: CompletionWindow::Hours24,
        status,
        output_file_id: output_file_id.map(|value| value.to_string()),
        error_file_id: error_file_id.map(|value| value.to_string()),
        created_at: 0,
        in_progress_at: None,
        expires_at: None,
        finalizing_at: None,
        completed_at: None,
        failed_at: None,
        expired_at: None,
        cancelling_at: None,
        cancelled_at: None,
        request_counts,
        metadata: None,
    }
}

#[test]
fn normalize_batch_surface_hides_non_terminal_file_ids() {
    let batch = make_batch_object(
        BatchStatus::InProgress,
        Some(BatchRequestCounts {
            total: 2,
            completed: 1,
            failed: 0,
        }),
        Some("file_output"),
        Some("file_error"),
    );

    let normalized = normalize_batch_for_openai_surface(batch);
    assert_eq!(normalized.status, BatchStatus::InProgress);
    assert_eq!(normalized.output_file_id, None);
    assert_eq!(normalized.error_file_id, None);
}

#[test]
fn normalize_batch_surface_validating_zero_progress_contract() {
    let batch = make_batch_object(
        BatchStatus::Validating,
        Some(BatchRequestCounts {
            total: 3,
            completed: 0,
            failed: 0,
        }),
        Some("file_output"),
        Some("file_error"),
    );

    let normalized = normalize_batch_for_openai_surface(batch);
    assert_eq!(normalized.status, BatchStatus::Validating);
    assert_eq!(normalized.output_file_id, None);
    assert_eq!(normalized.error_file_id, None);
    assert_eq!(
        normalized
            .request_counts
            .as_ref()
            .map(|value| value.completed),
        Some(0)
    );
    assert_eq!(
        normalized.request_counts.as_ref().map(|value| value.failed),
        Some(0)
    );
}

#[test]
fn normalize_batch_surface_promotes_validating_with_progress_to_in_progress() {
    let batch = make_batch_object(
        BatchStatus::Validating,
        Some(BatchRequestCounts {
            total: 4,
            completed: 2,
            failed: 0,
        }),
        None,
        Some("file_error"),
    );

    let normalized = normalize_batch_for_openai_surface(batch);
    assert_eq!(normalized.status, BatchStatus::InProgress);
    assert_eq!(normalized.output_file_id, None);
    assert_eq!(normalized.error_file_id, None);
    assert_eq!(
        normalized
            .request_counts
            .as_ref()
            .map(|value| value.completed),
        Some(2)
    );
}

#[test]
fn normalize_batch_surface_finalizing_hides_file_ids_contract() {
    let batch = make_batch_object(
        BatchStatus::Finalizing,
        Some(BatchRequestCounts {
            total: 2,
            completed: 1,
            failed: 0,
        }),
        Some("file_output"),
        Some("file_error"),
    );

    let normalized = normalize_batch_for_openai_surface(batch);
    assert_eq!(normalized.status, BatchStatus::Finalizing);
    assert_eq!(normalized.output_file_id, None);
    assert_eq!(normalized.error_file_id, None);
}

#[test]
fn normalize_batch_surface_cancelling_hides_file_ids_contract() {
    let batch = make_batch_object(
        BatchStatus::Cancelling,
        Some(BatchRequestCounts {
            total: 2,
            completed: 1,
            failed: 0,
        }),
        Some("file_output"),
        Some("file_error"),
    );

    let normalized = normalize_batch_for_openai_surface(batch);
    assert_eq!(normalized.status, BatchStatus::Cancelling);
    assert_eq!(normalized.output_file_id, None);
    assert_eq!(normalized.error_file_id, None);
}

#[test]
fn normalize_batch_surface_hides_terminal_error_file_without_failures() {
    let batch = make_batch_object(
        BatchStatus::Completed,
        Some(BatchRequestCounts {
            total: 2,
            completed: 2,
            failed: 0,
        }),
        Some("file_output"),
        Some("file_error"),
    );

    let normalized = normalize_batch_for_openai_surface(batch);
    assert_eq!(normalized.status, BatchStatus::Completed);
    assert_eq!(normalized.output_file_id.as_deref(), Some("file_output"));
    assert_eq!(normalized.error_file_id, None);
}

#[test]
fn normalize_batch_surface_failed_keeps_error_file_contract() {
    let batch = make_batch_object(
        BatchStatus::Failed,
        Some(BatchRequestCounts {
            total: 2,
            completed: 1,
            failed: 1,
        }),
        Some("file_output"),
        Some("file_error"),
    );

    let normalized = normalize_batch_for_openai_surface(batch);
    assert_eq!(normalized.status, BatchStatus::Failed);
    assert_eq!(normalized.output_file_id.as_deref(), Some("file_output"));
    assert_eq!(normalized.error_file_id.as_deref(), Some("file_error"));
}

#[test]
fn normalize_batch_surface_list_non_terminal_hides_file_ids_contract() {
    let batch = make_batch_object(
        BatchStatus::InProgress,
        Some(BatchRequestCounts {
            total: 2,
            completed: 1,
            failed: 0,
        }),
        Some("file_output"),
        Some("file_error"),
    );

    let normalized = normalize_batch_for_openai_surface_with_metrics(batch, &mut None);
    assert_eq!(normalized.status, BatchStatus::InProgress);
    assert_eq!(normalized.output_file_id, None);
    assert_eq!(normalized.error_file_id, None);
}

#[test]
fn normalize_batch_surface_cancel_terminal_success_hides_error_file_contract() {
    let batch = make_batch_object(
        BatchStatus::Cancelled,
        Some(BatchRequestCounts {
            total: 2,
            completed: 2,
            failed: 0,
        }),
        Some("file_output"),
        Some("file_error"),
    );

    let normalized = normalize_batch_for_openai_surface_with_metrics(batch, &mut None);
    assert_eq!(normalized.status, BatchStatus::Cancelled);
    assert_eq!(normalized.output_file_id.as_deref(), Some("file_output"));
    assert_eq!(normalized.error_file_id, None);
}

#[test]
fn normalize_batch_surface_cancel_failed_keeps_error_file_contract() {
    let batch = make_batch_object(
        BatchStatus::Failed,
        Some(BatchRequestCounts {
            total: 2,
            completed: 1,
            failed: 1,
        }),
        Some("file_output"),
        Some("file_error"),
    );

    let normalized = normalize_batch_for_openai_surface_with_metrics(batch, &mut None);
    assert_eq!(normalized.status, BatchStatus::Failed);
    assert_eq!(normalized.output_file_id.as_deref(), Some("file_output"));
    assert_eq!(normalized.error_file_id.as_deref(), Some("file_error"));
}

#[test]
fn canonical_provider_batch_id_update_promotes_batches_resource() {
    let update = canonical_provider_batch_id_update("operations/abc", "batches/xyz").unwrap();
    assert_eq!(update, Some("batches/xyz".to_string()));
}

#[test]
fn merge_provider_file_reference_preserves_persisted_when_current_missing() {
    let deployment_id = DeploymentId(Uuid::nil().as_u128());
    let merged = merge_provider_file_reference(
        "output",
        &None,
        &Some("files/output_1".to_string()),
        "gemini",
        deployment_id,
        "batches/123",
    );
    assert_eq!(merged.as_deref(), Some("files/output_1"));
}

#[test]
fn persisted_output_file_for_status_hides_non_terminal_value() {
    let output_file_id = VirtualFileId(Uuid::nil().as_u128());
    let persisted =
        persisted_output_file_for_status(&VirtualBatchStatus::Validating, Some(output_file_id));
    assert_eq!(persisted, None);
}

#[test]
fn persisted_output_file_for_status_keeps_terminal_value() {
    let output_file_id = VirtualFileId(Uuid::nil().as_u128());
    let persisted =
        persisted_output_file_for_status(&VirtualBatchStatus::Completed, Some(output_file_id));
    assert_eq!(persisted, Some(output_file_id));
}

#[test]
fn has_valid_provider_error_file_reference_supports_gemini_and_openai_shapes() {
    assert!(has_valid_provider_error_file_reference(
        "gemini",
        Some("files/error_abc123")
    ));
    assert!(has_valid_provider_error_file_reference(
        "openai/v1",
        Some("file-abc123")
    ));
    assert!(!has_valid_provider_error_file_reference(
        "openai/v1",
        Some("https://example.com/file-abc123")
    ));
}

#[test]
fn should_materialize_error_file_from_signals_true_for_valid_terminal_error_file_reference() {
    let signals = vec![(
        "gemini".to_string(),
        BatchStatus::Completed,
        false,
        Some("files/error_abc123".to_string()),
    )];

    assert!(should_materialize_error_file_from_signals(&None, &signals));
}

#[test]
fn should_materialize_error_file_from_signals_false_for_invalid_reference_without_other_evidence() {
    let signals = vec![(
        "openai/v1".to_string(),
        BatchStatus::Completed,
        false,
        Some("https://example.com/file-abc123".to_string()),
    )];

    assert!(!should_materialize_error_file_from_signals(&None, &signals));
}

#[test]
fn should_materialize_error_file_from_signals_true_when_failed_count_present() {
    let request_counts = Some(VirtualBatchRequestCounts {
        total: 2,
        completed: 1,
        failed: 1,
    });
    let signals = vec![("openai/v1".to_string(), BatchStatus::Completed, false, None)];

    assert!(should_materialize_error_file_from_signals(
        &request_counts,
        &signals
    ));
}

#[test]
fn normalize_request_counts_for_failed_status_balances_overreported_completions() {
    let counts = Some(BatchRequestCounts { total: 4, completed: 3, failed: 1 });

    let normalized =
        normalize_request_counts_for_batch_status(&BatchStatus::Failed, &counts, Some(2)).unwrap();

    assert_eq!(normalized.total, 2);
    assert_eq!(normalized.completed, 2);
    assert_eq!(normalized.failed, 0);
}

#[test]
fn normalize_request_counts_for_completed_status_keeps_failures_within_total() {
    let counts = Some(BatchRequestCounts { total: 3, completed: 3, failed: 1 });

    let normalized =
        normalize_request_counts_for_batch_status(&BatchStatus::Completed, &counts, None).unwrap();

    assert_eq!(normalized.total, 3);
    assert_eq!(normalized.completed, 2);
    assert_eq!(normalized.failed, 1);
}

#[test]
fn normalize_request_counts_for_failed_status_counts_missing_lines_failed() {
    let counts = Some(BatchRequestCounts { total: 5, completed: 1, failed: 0 });

    let normalized =
        normalize_request_counts_for_batch_status(&BatchStatus::Failed, &counts, None).unwrap();

    assert_eq!(normalized.total, 5);
    assert_eq!(normalized.completed, 1);
    assert_eq!(normalized.failed, 4);
}

#[test]
fn normalize_request_counts_running_batch_keeps_progress() {
    let counts = Some(BatchRequestCounts { total: 3, completed: 3, failed: 2 });

    let normalized =
        normalize_request_counts_for_batch_status(&BatchStatus::InProgress, &counts, None).unwrap();

    assert_eq!(normalized.total, 3);
    assert_eq!(normalized.completed, 1);
    assert_eq!(normalized.failed, 2);
}

#[test]
fn normalize_request_counts_without_lines_gives_none() {
    assert!(normalize_request_counts_for_batch_status(&BatchStatus::Completed, &None, None).is_none());
    assert!(normalize_request_counts_for_batch_status(&BatchStatus::Completed, &None, Some(0)).is_none());
}

#[test]
fn normalize_batch_surface_records_file_id_suppression_event() {
    let batch = make_batch_object(
        BatchStatus::InProgress,
        Some(BatchRequestCounts { total: 2, completed: 1, failed: 0 }),
        Some("file_output"),
        None,
    );

    let mut log = Some(Vec::new());
    let normalized = normalize_batch_for_openai_surface_with_metrics(batch, &mut log);
    assert_eq!(normalized.output_file_id, None);
    assert_eq!(
        log,
        Some(vec![SurfaceMetricEvent::FileIdSuppression {
            endpoint: BatchEndpoint::ChatCompletions,
            status: BatchStatus::InProgress,
        }])
    );
}

#[test]
fn normalize_batch_surface_records_error_file_suppression_event() {
    let batch = make_batch_object(
        BatchStatus::Cancelled,
        Some(BatchRequestCounts { total: 2, completed: 2, failed: 0 }),
        Some("file_output"),
        Some("file_error"),
    );

    let earlier = SurfaceMetricEvent::FileIdSuppression {
        endpoint: BatchEndpoint::Embeddings,
        status: BatchStatus::Validating,
    };
    let mut log = Some(vec![earlier]);
    let normalized = normalize_batch_for_openai_surface_with_metrics(batch, &mut log);
    assert_eq!(normalized.error_file_id, None);
    assert_eq!(
        log,
        Some(vec![
            earlier,
            SurfaceMetricEvent::ErrorFileSuppression {
                endpoint: BatchEndpoint::ChatCompletions,
                status: BatchStatus::Cancelled,
            },
        ])
    );
}

#[test]
fn normalize_batch_surface_records_nothing_without_log() {
    let batch = make_batch_object(
        BatchStatus::InProgress,
        Some(BatchRequestCounts { total: 2, completed: 1, failed: 0 }),
        Some("file_output"),
        Some("file_error"),
    );
    let mut log: Option<Vec<SurfaceMetricEvent>> = None;
    let _ = normalize_batch_for_openai_surface_with_metrics(batch, &mut log);
    assert!(log.is_none());
}
