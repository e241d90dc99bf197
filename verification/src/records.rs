//! Persisted records of virtual batches, provider batches and virtual files,
//! and the OpenAI file object that describes a file.

use vstd::prelude::*;
use std::collections::HashMap;
use crate::batch_types::{
    VirtualBatchCompletionWindow, VirtualBatchEndpoint, VirtualBatchRequestCounts,
    VirtualBatchStatus,
};
use crate::ids::{DeploymentId, ProviderBatchId, VirtualBatchId, VirtualFileId, VirtualKeyId};

verus! {

/// A batch as the caller sees it, backed by one provider batch per
/// (provider, deployment) group of its input lines.
#[derive(Clone, Debug)]
pub struct VirtualBatch {
    pub id: VirtualBatchId,
    pub virtual_key_id: VirtualKeyId,
    pub input_file_id: VirtualFileId,
    pub endpoint: VirtualBatchEndpoint,
    pub completion_window: VirtualBatchCompletionWindow,
    pub status: VirtualBatchStatus,
    pub request_counts: Option<VirtualBatchRequestCounts>,
    pub metadata: Option<HashMap<String, String>>,
    pub output_file_id: Option<VirtualFileId>,
    pub error_file_id: Option<VirtualFileId>,
    pub created_at: i64,
    pub in_progress_at: Option<i64>,
    pub expires_at: Option<i64>,
    pub finalizing_at: Option<i64>,
    pub completed_at: Option<i64>,
    pub failed_at: Option<i64>,
    pub expired_at: Option<i64>,
    pub cancelling_at: Option<i64>,
    pub cancelled_at: Option<i64>,
}

/// One provider batch backing a virtual batch.
#[derive(Clone, Debug)]
pub struct ProviderBatch {
    pub id: ProviderBatchId,
    pub virtual_batch_id: VirtualBatchId,
    pub provider: String,
    pub deployment_id: DeploymentId,
    pub provider_batch_id: String,
    pub status: VirtualBatchStatus,
    pub request_counts: Option<VirtualBatchRequestCounts>,
    pub output_file_id: Option<String>,
    pub error_file_id: Option<String>,
}

/// The role of a virtual file in the batch lifecycle.
#[derive(Clone, Copy, Debug, PartialEq, Eq, Structural)]
pub enum VirtualFileKind {
    Input,
    Output,
    Error,
}

/// The purpose of a file on the OpenAI surface.
#[derive(Clone, Copy, Debug, PartialEq, Eq, Structural)]
pub enum FilePurpose {
    Assistants,
    AssistantsOutput,
    Batch,
    BatchOutput,
    FineTune,
    FineTuneResults,
    Vision,
    UserData,
    Evals,
}

/// A provider file that holds part of a virtual file.
#[derive(Clone, Debug)]
pub struct ProviderFileReference {
    pub provider: String,
    pub deployment_id: DeploymentId,
    pub provider_file_id: String,
}

/// Where one line of a virtual file lives: line `provider_line_index` of
/// provider file `provider_file_id`.
#[derive(Clone, Debug)]
pub struct VirtualFileLineMapEntry {
    pub line_index: i32,
    pub provider: String,
    pub deployment_id: DeploymentId,
    pub provider_file_id: String,
    pub provider_line_index: i32,
}

/// A file as the caller sees it, stored as parts in provider files.
#[derive(Clone, Debug)]
pub struct VirtualFile {
    pub id: VirtualFileId,
    pub virtual_key_id: VirtualKeyId,
    pub purpose: FilePurpose,
    pub filename: String,
    pub bytes: i64,
    pub kind: VirtualFileKind,
    pub batch_id: Option<VirtualBatchId>,
    pub line_count: Option<i32>,
    pub provider_files: Option<Vec<ProviderFileReference>>,
    pub line_map: Option<Vec<VirtualFileLineMapEntry>>,
    pub created_at: i64,
    pub expires_at: Option<i64>,
}

/// Processing status of a file on the OpenAI surface.
#[derive(Clone, Copy, Debug, PartialEq, Eq, Structural)]
pub enum FileStatus {
    Uploaded,
    Processed,
    Error,
}

/// The `object` tag of a file object.
#[derive(Clone, Copy, Debug, PartialEq, Eq, Structural)]
pub enum FileObjectType {
    File,
}

/// A file as returned on the OpenAI-compatible surface.
#[derive(Clone, Debug)]
pub struct FileObject {
    pub id: String,
    pub bytes: u64,
    pub created_at: u64,
    pub expires_at: Option<u64>,
    pub filename: String,
    pub object: FileObjectType,
    pub purpose: FilePurpose,
    pub status: FileStatus,
    pub status_details: Option<String>,
}

} // verus!
