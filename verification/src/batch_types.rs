//! Batch lifecycle types as seen on the OpenAI surface and as persisted for
//! virtual batches, with the one-to-one conversions between them.

use vstd::prelude::*;
use std::collections::HashMap;

verus! {

/// Status of a batch on the OpenAI-compatible surface.
#[derive(Clone, Copy, Debug, PartialEq, Eq, Structural)]
pub enum BatchStatus {
    Validating,
    Failed,
    InProgress,
    Finalizing,
    Completed,
    Expired,
    Cancelling,
    Cancelled,
}

/// Status of a persisted virtual batch.
#[derive(Clone, Copy, Debug, PartialEq, Eq, Structural)]
pub enum VirtualBatchStatus {
    Validating,
    Failed,
    InProgress,
    Finalizing,
    Completed,
    Expired,
    Cancelling,
    Cancelled,
}

/// Endpoint a batch targets on the OpenAI-compatible surface.
#[derive(Clone, Copy, Debug, PartialEq, Eq, Structural)]
pub enum BatchEndpoint {
    Responses,
    ChatCompletions,
    Embeddings,
    Completions,
}

/// Endpoint a persisted virtual batch targets.
#[derive(Clone, Copy, Debug, PartialEq, Eq, Structural)]
pub enum VirtualBatchEndpoint {
    Responses,
    ChatCompletions,
    Embeddings,
    Completions,
}

/// Completion window of a batch on the OpenAI-compatible surface.
#[derive(Clone, Copy, Debug, PartialEq, Eq, Structural)]
pub enum CompletionWindow {
    Hours24,
}

/// Completion window of a persisted virtual batch.
#[derive(Clone, Copy, Debug, PartialEq, Eq, Structural)]
pub enum VirtualBatchCompletionWindow {
    Hours24,
}

/// The `object` tag of a batch object.
#[derive(Clone, Copy, Debug, PartialEq, Eq, Structural)]
pub enum BatchObjectType {
    Batch,
}

/// Per-line progress counters on the OpenAI-compatible surface.
#[derive(Clone, Copy, Debug, PartialEq, Eq, Structural)]
pub struct BatchRequestCounts {
    pub total: u64,
    pub completed: u64,
    pub failed: u64,
}

/// Per-line progress counters as persisted for virtual and provider batches.
#[derive(Clone, Copy, Debug, PartialEq, Eq, Structural)]
pub struct VirtualBatchRequestCounts {
    pub total: i64,
    pub completed: i64,
    pub failed: i64,
}

/// One entry of a batch's error list.
#[derive(Clone, Debug)]
pub struct BatchErrorData {
    pub code: Option<String>,
    pub message: Option<String>,
    pub param: Option<String>,
    pub line: Option<u64>,
}

/// The error list a provider attaches to a batch.
#[derive(Clone, Debug)]
pub struct BatchErrors {
    pub object: String,
    pub data: Vec<BatchErrorData>,
}

/// A batch as returned on the OpenAI-compatible surface.
#[derive(Clone, Debug)]
pub struct BatchObject {
    pub id: String,
    pub object: BatchObjectType,
    pub endpoint: BatchEndpoint,
    pub errors: Option<BatchErrors>,
    pub input_file_id: String,
    pub completion_window: CompletionWindow,
    pub status: BatchStatus,
    pub output_file_id: Option<String>,
    pub error_file_id: Option<String>,
    pub created_at: u64,
    pub in_progress_at: Option<u64>,
    pub expires_at: Option<u64>,
    pub finalizing_at: Option<u64>,
    pub completed_at: Option<u64>,
    pub failed_at: Option<u64>,
    pub expired_at: Option<u64>,
    pub cancelling_at: Option<u64>,
    pub cancelled_at: Option<u64>,
    pub request_counts: Option<BatchRequestCounts>,
    pub metadata: Option<HashMap<String, String>>,
}

pub open spec fn batch_status_to_virtual(s: BatchStatus) -> VirtualBatchStatus {
    match s {
        BatchStatus::Validating => VirtualBatchStatus::Validating,
        BatchStatus::Failed => VirtualBatchStatus::Failed,
        BatchStatus::InProgress => VirtualBatchStatus::InProgress,
        BatchStatus::Finalizing => VirtualBatchStatus::Finalizing,
        BatchStatus::Completed => VirtualBatchStatus::Completed,
        BatchStatus::Expired => VirtualBatchStatus::Expired,
        BatchStatus::Cancelling => VirtualBatchStatus::Cancelling,
        BatchStatus::Cancelled => VirtualBatchStatus::Cancelled,
    }
}

pub open spec fn virtual_status_to_batch(s: VirtualBatchStatus) -> BatchStatus {
    match s {
        VirtualBatchStatus::Validating => BatchStatus::Validating,
        VirtualBatchStatus::Failed => BatchStatus::Failed,
        VirtualBatchStatus::InProgress => BatchStatus::InProgress,
        VirtualBatchStatus::Finalizing => BatchStatus::Finalizing,
        VirtualBatchStatus::Completed => BatchStatus::Completed,
        VirtualBatchStatus::Expired => BatchStatus::Expired,
        VirtualBatchStatus::Cancelling => BatchStatus::Cancelling,
        VirtualBatchStatus::Cancelled => BatchStatus::Cancelled,
    }
}

impl<'a> From<&'a BatchStatus> for VirtualBatchStatus {
    fn from(value: &'a BatchStatus) -> (r: Self) {
        match value {
            BatchStatus::Validating => VirtualBatchStatus::Validating,
            BatchStatus::Failed => VirtualBatchStatus::Failed,
            BatchStatus::InProgress => VirtualBatchStatus::InProgress,
            BatchStatus::Finalizing => VirtualBatchStatus::Finalizing,
            BatchStatus::Completed => VirtualBatchStatus::Completed,
            BatchStatus::Expired => VirtualBatchStatus::Expired,
            BatchStatus::Cancelling => VirtualBatchStatus::Cancelling,
            BatchStatus::Cancelled => VirtualBatchStatus::Cancelled,
        }
    }
}

impl<'a> vstd::std_specs::convert::FromSpecImpl<&'a BatchStatus> for VirtualBatchStatus {
    open spec fn obeys_from_spec() -> bool {
        true
    }

    open spec fn from_spec(v: &'a BatchStatus) -> Self {
        batch_status_to_virtual(*v)
    }
}


impl<'a> From<&'a VirtualBatchStatus> for BatchStatus {
    fn from(value: &'a VirtualBatchStatus) -> (r: Self) {
        match value {
            VirtualBatchStatus::Validating => BatchStatus::Validating,
            VirtualBatchStatus::Failed => BatchStatus::Failed,
            VirtualBatchStatus::InProgress => BatchStatus::InProgress,
            VirtualBatchStatus::Finalizing => BatchStatus::Finalizing,
            VirtualBatchStatus::Completed => BatchStatus::Completed,
            VirtualBatchStatus::Expired => BatchStatus::Expired,
            VirtualBatchStatus::Cancelling => BatchStatus::Cancelling,
            VirtualBatchStatus::Cancelled => BatchStatus::Cancelled,
        }
    }
}

impl<'a> vstd::std_specs::convert::FromSpecImpl<&'a VirtualBatchStatus> for BatchStatus {
    open spec fn obeys_from_spec() -> bool {
        true
    }

    open spec fn from_spec(v: &'a VirtualBatchStatus) -> Self {
        virtual_status_to_batch(*v)
    }
}

pub open spec fn batch_endpoint_to_virtual(s: BatchEndpoint) -> VirtualBatchEndpoint {
    match s {
        BatchEndpoint::Responses => VirtualBatchEndpoint::Responses,
        BatchEndpoint::ChatCompletions => VirtualBatchEndpoint::ChatCompletions,
        BatchEndpoint::Embeddings => VirtualBatchEndpoint::Embeddings,
        BatchEndpoint::Completions => VirtualBatchEndpoint::Completions,
    }
}

impl<'a> From<&'a BatchEndpoint> for VirtualBatchEndpoint {
    fn from(value: &'a BatchEndpoint) -> (r: Self) {
        match value {
            BatchEndpoint::Responses => VirtualBatchEndpoint::Responses,
            BatchEndpoint::ChatCompletions => VirtualBatchEndpoint::ChatCompletions,
            BatchEndpoint::Embeddings => VirtualBatchEndpoint::Embeddings,
            BatchEndpoint::Completions => VirtualBatchEndpoint::Completions,
        }
    }
}

impl<'a> vstd::std_specs::convert::FromSpecImpl<&'a BatchEndpoint> for VirtualBatchEndpoint {
    open spec fn obeys_from_spec() -> bool {
        true
    }

    open spec fn from_spec(v: &'a BatchEndpoint) -> Self {
        batch_endpoint_to_virtual(*v)
    }
}

pub open spec fn virtual_endpoint_to_batch(s: VirtualBatchEndpoint) -> BatchEndpoint {
    match s {
        VirtualBatchEndpoint::Responses => BatchEndpoint::Responses,
        VirtualBatchEndpoint::ChatCompletions => BatchEndpoint::ChatCompletions,
        VirtualBatchEndpoint::Embeddings => BatchEndpoint::Embeddings,
        VirtualBatchEndpoint::Completions => BatchEndpoint::Completions,
    }
}

impl<'a> From<&'a VirtualBatchEndpoint> for BatchEndpoint {
    fn from(value: &'a VirtualBatchEndpoint) -> (r: Self) {
        match value {
            VirtualBatchEndpoint::Responses => BatchEndpoint::Responses,
            VirtualBatchEndpoint::ChatCompletions => BatchEndpoint::ChatCompletions,
            VirtualBatchEndpoint::Embeddings => BatchEndpoint::Embeddings,
            VirtualBatchEndpoint::Completions => BatchEndpoint::Completions,
        }
    }
}

impl<'a> vstd::std_specs::convert::FromSpecImpl<&'a VirtualBatchEndpoint> for BatchEndpoint {
    open spec fn obeys_from_spec() -> bool {
        true
    }

    open spec fn from_spec(v: &'a VirtualBatchEndpoint) -> Self {
        virtual_endpoint_to_batch(*v)
    }
}

pub open spec fn completion_window_to_virtual(s: CompletionWindow) -> VirtualBatchCompletionWindow {
    match s {
        CompletionWindow::Hours24 => VirtualBatchCompletionWindow::Hours24,
    }
}

impl<'a> From<&'a CompletionWindow> for VirtualBatchCompletionWindow {
    fn from(value: &'a CompletionWindow) -> (r: Self) {
        match value {
            CompletionWindow::Hours24 => VirtualBatchCompletionWindow::Hours24,
        }
    }
}

impl<'a> vstd::std_specs::convert::FromSpecImpl<&'a CompletionWindow> for VirtualBatchCompletionWindow {
    open spec fn obeys_from_spec() -> bool {
        true
    }

    open spec fn from_spec(v: &'a CompletionWindow) -> Self {
        completion_window_to_virtual(*v)
    }
}

pub open spec fn virtual_completion_window_to_batch(s: VirtualBatchCompletionWindow) -> CompletionWindow {
    match s {
        VirtualBatchCompletionWindow::Hours24 => CompletionWindow::Hours24,
    }
}

impl<'a> From<&'a VirtualBatchCompletionWindow> for CompletionWindow {
    fn from(value: &'a VirtualBatchCompletionWindow) -> (r: Self) {
        match value {
            VirtualBatchCompletionWindow::Hours24 => CompletionWindow::Hours24,
        }
    }
}

impl<'a> vstd::std_specs::convert::FromSpecImpl<&'a VirtualBatchCompletionWindow> for CompletionWindow {
    open spec fn obeys_from_spec() -> bool {
        true
    }

    open spec fn from_spec(v: &'a VirtualBatchCompletionWindow) -> Self {
        virtual_completion_window_to_batch(*v)
    }
}

/// The surface and persisted statuses correspond one to one: converting a
/// status to the other kind and back gives it again.
pub proof fn law_status_conversions_invert(s: BatchStatus, v: VirtualBatchStatus)
    ensures
        virtual_status_to_batch(batch_status_to_virtual(s)) == s,
        batch_status_to_virtual(virtual_status_to_batch(v)) == v,
{
}

/// The surface and persisted endpoints correspond one to one.
pub proof fn law_endpoint_conversions_invert(e: BatchEndpoint, v: VirtualBatchEndpoint)
    ensures
        virtual_endpoint_to_batch(batch_endpoint_to_virtual(e)) == e,
        batch_endpoint_to_virtual(virtual_endpoint_to_batch(v)) == v,
{
}

/// The surface and persisted completion windows correspond one to one.
pub proof fn law_completion_window_conversions_invert(
    w: CompletionWindow,
    v: VirtualBatchCompletionWindow,
)
    ensures
        virtual_completion_window_to_batch(completion_window_to_virtual(w)) == w,
        completion_window_to_virtual(virtual_completion_window_to_batch(v)) == v,
{
}

} // verus!
