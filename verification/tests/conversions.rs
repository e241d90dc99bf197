use llmur::batch_rules::{batch_request_counts_to_virtual, virtual_request_counts_to_batch};
use llmur::batch_types::{
    BatchEndpoint, BatchRequestCounts, BatchStatus, CompletionWindow, VirtualBatchCompletionWindow,
    VirtualBatchEndpoint, VirtualBatchRequestCounts, VirtualBatchStatus,
};

#[test]
fn statuses_convert_back_and_forth() {
    let all = [
        BatchStatus::Validating,
        BatchStatus::Failed,
        BatchStatus::InProgress,
        BatchStatus::Finalizing,
        BatchStatus::Completed,
        BatchStatus::Expired,
        BatchStatus::Cancelling,
        BatchStatus::Cancelled,
    ];
    for s in all {
        let v = VirtualBatchStatus::from(&s);
        assert_eq!(BatchStatus::from(&v), s);
    }
    assert_eq!(VirtualBatchStatus::from(&BatchStatus::Cancelling), VirtualBatchStatus::Cancelling);
}

#[test]
fn endpoints_and_windows_convert_back_and_forth() {
    for e in [
        BatchEndpoint::Responses,
        BatchEndpoint::ChatCompletions,
        BatchEndpoint::Embeddings,
        BatchEndpoint::Completions,
    ] {
        assert_eq!(BatchEndpoint::from(&VirtualBatchEndpoint::from(&e)), e);
    }
    assert_eq!(
        VirtualBatchCompletionWindow::from(&CompletionWindow::Hours24),
        VirtualBatchCompletionWindow::Hours24
    );
    assert_eq!(
        CompletionWindow::from(&VirtualBatchCompletionWindow::Hours24),
        CompletionWindow::Hours24
    );
}

#[test]
fn request_counts_round_trip() {
    let c = BatchRequestCounts { total: 10, completed: 7, failed: 3 };
    let v = batch_request_counts_to_virtual(&Some(c));
    assert_eq!(v, Some(VirtualBatchRequestCounts { total: 10, completed: 7, failed: 3 }));
    assert_eq!(virtual_request_counts_to_batch(&v), Some(c));
    let negative = VirtualBatchRequestCounts { total: -1, completed: 2, failed: -5 };
    assert_eq!(
        virtual_request_counts_to_batch(&Some(negative)),
        Some(BatchRequestCounts { total: 0, completed: 2, failed: 0 })
    );
    assert_eq!(batch_request_counts_to_virtual(&None), None);
}
