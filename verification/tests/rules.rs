use llmur::batch_fanout::{
    aggregate_virtual_timestamps, azure_batch_endpoint_supported, gemini_batch_endpoint_supported,
    max_timestamp,
};
use llmur::batch_lines::check_batch_line_header;
use llmur::batch_rules::{
    aggregate_virtual_request_counts, aggregate_virtual_status, is_terminal_batch_status,
    is_terminal_virtual_status, saturating_add_i64,
};
use llmur::batch_surface::{saturating_add_u64, surface_facts, surface_metric_events, SurfaceMetricEvent};
use llmur::batch_types::{
    BatchEndpoint, BatchErrorData, BatchErrors, BatchObject, BatchObjectType, BatchRequestCounts,
    BatchStatus, CompletionWindow, VirtualBatchRequestCounts, VirtualBatchStatus,
};
use llmur::error_files::{normalize_gemini_file_reference, should_materialize_error_file};
use llmur::errors::LLMurError;
use llmur::ids::{DeploymentId, ProviderBatchId, VirtualBatchId};
use llmur::json::{clone_json_option, clone_string_option, clone_strings};
use llmur::line_map::clone_entry;
use llmur::records::{ProviderBatch, VirtualFileLineMapEntry};
use llmur::route_utils::NullableField;
use llmur::text::{
    char_is_control, char_is_ws, contains_char, ends_with, join_lines_with_newline,
    join_with_newlines, seq_eq, split_whitespace, starts_with, to_owned, trim_end_char_str,
    trim_start_str, trim_str, u64_to_decimal, usize_to_decimal,
};

fn batch(status: BatchStatus) -> BatchObject {
    BatchObject {
        id: "b".to_string(),
        object: BatchObjectType::Batch,
        endpoint: BatchEndpoint::Responses,
        errors: None,
        input_file_id: "f".to_string(),
        completion_window: CompletionWindow::Hours24,
        status,
        output_file_id: None,
        error_file_id: None,
        created_at: 1,
        in_progress_at: None,
        expires_at: Some(50),
        finalizing_at: None,
        completed_at: None,
        failed_at: None,
        expired_at: None,
        cancelling_at: None,
        cancelled_at: None,
        request_counts: None,
        metadata: None,
    }
}

fn provider(name: &str) -> ProviderBatch {
    ProviderBatch {
        id: ProviderBatchId(1),
        virtual_batch_id: VirtualBatchId(2),
        provider: name.to_string(),
        deployment_id: DeploymentId(3),
        provider_batch_id: "pb".to_string(),
        status: VirtualBatchStatus::InProgress,
        request_counts: None,
        output_file_id: None,
        error_file_id: None,
    }
}

#[test]
fn terminal_statuses() {
    assert!(is_terminal_batch_status(&BatchStatus::Expired));
    assert!(!is_terminal_batch_status(&BatchStatus::Cancelling));
    assert!(is_terminal_virtual_status(&VirtualBatchStatus::Cancelled));
    assert!(!is_terminal_virtual_status(&VirtualBatchStatus::Finalizing));
}

#[test]
fn status_precedence() {
    type S = VirtualBatchStatus;
    assert_eq!(aggregate_virtual_status(&[S::Completed, S::Failed, S::InProgress]), S::Failed);
    assert_eq!(aggregate_virtual_status(&[S::Completed, S::Completed]), S::Completed);
    assert_eq!(aggregate_virtual_status(&[S::Completed, S::Cancelled, S::Cancelling]), S::Cancelling);
    assert_eq!(aggregate_virtual_status(&[S::Expired, S::Finalizing]), S::Expired);
    assert_eq!(aggregate_virtual_status(&[S::Validating, S::InProgress]), S::InProgress);
    assert_eq!(aggregate_virtual_status(&[S::Validating]), S::Validating);
    assert_eq!(aggregate_virtual_status(&[]), S::Completed);
}

#[test]
fn count_sums_saturate() {
    let c = |t, c, f| Some(VirtualBatchRequestCounts { total: t, completed: c, failed: f });
    assert_eq!(aggregate_virtual_request_counts(vec![c(1, 2, 3), c(4, 5, 6)]), c(5, 7, 9));
    assert_eq!(aggregate_virtual_request_counts(vec![c(1, 2, 3), None]), None);
    assert_eq!(aggregate_virtual_request_counts(vec![c(i64::MAX, 0, 0), c(5, 0, 0)]), c(i64::MAX, 0, 0));
    assert_eq!(saturating_add_i64(i64::MIN, -1), i64::MIN);
    assert_eq!(saturating_add_i64(2, 3), 5);
    assert_eq!(saturating_add_u64(u64::MAX, 1), u64::MAX);
}

#[test]
fn timestamps_take_the_latest_unless_one_is_missing() {
    assert_eq!(max_timestamp(Some(5), Some(9)), Some(9));
    assert_eq!(max_timestamp(Some(9), Some(5)), Some(9));
    assert_eq!(max_timestamp(None, Some(5)), Some(5));
    assert_eq!(max_timestamp(Some(9), None), None);
    let mut a = batch(BatchStatus::Completed);
    a.completed_at = Some(10);
    let mut b = batch(BatchStatus::Completed);
    b.completed_at = Some(20);
    b.expires_at = Some(40);
    let t = aggregate_virtual_timestamps(&[a.clone(), b]);
    assert_eq!(t.completed_at, Some(20));
    assert_eq!(t.expires_at, Some(50));
    assert_eq!(t.in_progress_at, None);
    assert_eq!(aggregate_virtual_timestamps(&[a]).completed_at, Some(10));
}

#[test]
fn batch_endpoint_support() {
    assert!(azure_batch_endpoint_supported(&BatchEndpoint::Embeddings));
    assert!(!azure_batch_endpoint_supported(&BatchEndpoint::Responses));
    assert!(gemini_batch_endpoint_supported(&BatchEndpoint::Responses));
    assert!(!gemini_batch_endpoint_supported(&BatchEndpoint::Completions));
}

#[test]
fn batch_line_header_checks() {
    assert_eq!(check_batch_line_header(1, "a", "POST"), Ok(()));
    assert_eq!(
        check_batch_line_header(3, "  ", "POST"),
        Err(LLMurError::BadRequest("Batch line 3 must include custom_id.".to_string()))
    );
    assert_eq!(
        check_batch_line_header(4, "a", "GET"),
        Err(LLMurError::BadRequest("Batch line 4 method must be POST.".to_string()))
    );
}

#[test]
fn surface_metric_events_report_the_rules_at_work() {
    let mut before = batch(BatchStatus::Validating);
    before.output_file_id = Some("out".to_string());
    before.request_counts = Some(BatchRequestCounts { total: 2, completed: 1, failed: 0 });
    let facts = surface_facts(&before);
    assert!(facts.had_output_file && !facts.had_error_file);
    assert_eq!(facts.failed, 0);
    let mut after = before.clone();
    after.status = BatchStatus::InProgress;
    after.output_file_id = None;
    let events = surface_metric_events(&facts, &after);
    assert_eq!(
        events,
        vec![
            SurfaceMetricEvent::StatusCoercion {
                endpoint: BatchEndpoint::Responses,
                from: BatchStatus::Validating,
                to: BatchStatus::InProgress,
            },
            SurfaceMetricEvent::FileIdSuppression {
                endpoint: BatchEndpoint::Responses,
                status: BatchStatus::InProgress,
            },
        ]
    );
}

#[test]
fn gemini_file_references() {
    assert_eq!(normalize_gemini_file_reference(" files/abc_1 "), Some("files/abc_1".to_string()));
    assert_eq!(
        normalize_gemini_file_reference("https://x/v1beta/files/zz-9:download?alt=media"),
        None
    );
    assert_eq!(
        normalize_gemini_file_reference("https://x/v1beta/files/zz-9?alt=media"),
        Some("files/zz-9".to_string())
    );
    assert_eq!(normalize_gemini_file_reference("batches/1"), None);
}

#[test]
fn error_file_from_refreshed_batches() {
    let counts = Some(VirtualBatchRequestCounts { total: 3, completed: 3, failed: 0 });
    let ok = (provider("openai/v1"), batch(BatchStatus::Completed));
    assert!(!should_materialize_error_file(&counts, &[ok.clone()]));
    let mut with_errors = batch(BatchStatus::Completed);
    with_errors.errors = Some(BatchErrors {
        object: "list".to_string(),
        data: vec![BatchErrorData { code: None, message: Some("m".to_string()), param: None, line: None }],
    });
    assert!(should_materialize_error_file(&counts, &[ok.clone(), (provider("openai/v1"), with_errors)]));
    let mut with_file = batch(BatchStatus::Completed);
    with_file.error_file_id = Some("file-err".to_string());
    assert!(should_materialize_error_file(&counts, &[(provider("openai/v1"), with_file)]));
    let failed = Some(VirtualBatchRequestCounts { total: 3, completed: 2, failed: 1 });
    assert!(should_materialize_error_file(&failed, &[ok]));
}

#[test]
fn copies_are_equal() {
    let v = Some(serde_json::Value::String("x".to_string()));
    assert_eq!(clone_json_option(&v), v);
    assert_eq!(clone_string_option(&Some("a".to_string())), Some("a".to_string()));
    assert_eq!(clone_strings(&vec!["a".to_string(), "b".to_string()]), vec!["a".to_string(), "b".to_string()]);
    let e = VirtualFileLineMapEntry {
        line_index: 1,
        provider: "openai/v1".to_string(),
        deployment_id: DeploymentId(2),
        provider_file_id: "f".to_string(),
        provider_line_index: 0,
    };
    let c = clone_entry(&e);
    assert_eq!((c.line_index, c.provider.as_str(), c.provider_line_index), (1, "openai/v1", 0));
    assert_eq!(NullableField::Value(3u8).into_option(), Some(Some(3)));
}

#[test]
fn text_helpers() {
    assert!(char_is_ws('\u{3000}') && char_is_ws('\t') && !char_is_ws('x'));
    assert!(char_is_control('\u{7f}') && !char_is_control(' '));
    assert_eq!(trim_str("\u{a0} a b \n"), "a b");
    assert_eq!(trim_start_str("  a "), "a ");
    assert!(seq_eq("ab", "ab") && !seq_eq("ab", "a"));
    assert!(starts_with("data: x", "data:") && !starts_with("da", "data:"));
    assert!(ends_with("x/openai/v1", "/openai/v1"));
    assert!(contains_char("a/b", '/') && !contains_char("ab", '/'));
    assert_eq!(trim_end_char_str("a///", '/'), "a");
    assert_eq!(llmur::text::concat("a", "b"), "ab");
    assert_eq!(to_owned("z"), "z".to_string());
    assert_eq!(usize_to_decimal(0), "0");
    assert_eq!(u64_to_decimal(18446744073709551615), "18446744073709551615");
    let lines = vec!["a".to_string(), "b".to_string()];
    assert_eq!(join_with_newlines(&lines), "a\nb");
    assert_eq!(join_lines_with_newline(&lines), "a\nb\n");
    assert_eq!(join_lines_with_newline(&[]), "");
    assert_eq!(split_whitespace("  a \t b\u{2003}c "), vec!["a", "b", "c"]);
}
