//! Decisions of the batch handlers: which input files may start a batch, how
//! one refreshed provider batch is reconciled, how the virtual batch sums up
//! its provider batches, and when output and error files are materialised.

use vstd::prelude::*;
use crate::batch_types::{
    BatchEndpoint, BatchObject, VirtualBatchRequestCounts, VirtualBatchStatus,
    batch_status_to_virtual,
};
use crate::batch_rules::{
    aggregate_virtual_request_counts, aggregate_virtual_status, all_some_counts,
    batch_request_counts_to_virtual, counts_to_virtual, fold_counts, normalize_request_counts_for_batch_status,
    spec_aggregate_status, spec_normalize_counts,
};
use crate::batch_fanout::{
    AggregatedTimestamps, aggregate_virtual_timestamps, canonical_provider_batch_id_update,
    merge_provider_file_reference, spec_aggregate_timestamps, spec_canonical_update,
    azure_batch_endpoint_supported, gemini_batch_endpoint_supported,
};
use crate::errors::{LLMurError, bad_request};
use crate::ids::VirtualKeyId;
use crate::providers::ProviderConnection;
use crate::records::{FilePurpose, ProviderBatch, VirtualBatch, VirtualFile};
use crate::text::to_owned;

verus! {

/// Why an input file cannot start a batch, checked in this order.
pub open spec fn spec_input_file_error(file: Option<VirtualFile>, key: VirtualKeyId) -> Option<Seq<char>> {
    match file {
        None => Some("Input file was not found."@),
        Some(f) => if f.virtual_key_id != key {
            Some("Input file does not belong to this virtual key."@)
        } else if f.purpose != FilePurpose::Batch {
            Some("Input file is not a batch file."@)
        } else if f.provider_files is None || f.provider_files.unwrap()@.len() == 0 {
            Some("Input file is missing provider file references."@)
        } else {
            None
        },
    }
}

/// A batch may start from a batch-purpose input file of the caller's virtual
/// key that was expanded into provider files.
pub fn check_batch_input_file(input_file: Option<&VirtualFile>, virtual_key_id: VirtualKeyId) -> (r:
    Result<(), LLMurError>)
    ensures
        match r {
            Ok(_) => spec_input_file_error(
                match input_file {
                    Some(f) => Some(*f),
                    None => None,
                },
                virtual_key_id,
            ) is None,
            Err(e) => e is BadRequest && spec_input_file_error(
                match input_file {
                    Some(f) => Some(*f),
                    None => None,
                },
                virtual_key_id,
            ) == Some(bad_request(e)),
        },
{
    let f = match input_file {
        None => return Err(LLMurError::BadRequest(to_owned("Input file was not found."))),
        Some(f) => f,
    };
    if f.virtual_key_id != virtual_key_id {
        return Err(LLMurError::BadRequest(to_owned("Input file does not belong to this virtual key.")));
    }
    if f.purpose != FilePurpose::Batch {
        return Err(LLMurError::BadRequest(to_owned("Input file is not a batch file.")));
    }
    match &f.provider_files {
        None => Err(LLMurError::BadRequest(to_owned("Input file is missing provider file references."))),
        Some(files) => if files.len() == 0 {
            Err(LLMurError::BadRequest(to_owned("Input file is missing provider file references.")))
        } else {
            Ok(())
        },
    }
}

/// Why a caller may not read or cancel a batch, checked in this order.
pub open spec fn spec_batch_access_error(batch: Option<VirtualBatch>, key: VirtualKeyId) -> Option<Seq<char>> {
    match batch {
        None => Some("Batch was not found."@),
        Some(b) => if b.virtual_key_id != key {
            Some("Batch does not belong to this virtual key."@)
        } else {
            None
        },
    }
}

/// Only the virtual key that created a batch may read or cancel it.
pub fn check_batch_access(batch: Option<&VirtualBatch>, virtual_key_id: VirtualKeyId) -> (r: Result<
    (),
    LLMurError,
>)
    ensures
        match r {
            Ok(_) => spec_batch_access_error(
                match batch {
                    Some(b) => Some(*b),
                    None => None,
                },
                virtual_key_id,
            ) is None,
            Err(e) => e is BadRequest && spec_batch_access_error(
                match batch {
                    Some(b) => Some(*b),
                    None => None,
                },
                virtual_key_id,
            ) == Some(bad_request(e)),
        },
{
    match batch {
        None => Err(LLMurError::BadRequest(to_owned("Batch was not found."))),
        Some(b) => if b.virtual_key_id != virtual_key_id {
            Err(LLMurError::BadRequest(to_owned("Batch does not belong to this virtual key.")))
        } else {
            Ok(())
        },
    }
}

/// Whether a provider can run a batch on an endpoint; OpenAI runs every
/// endpoint.
pub open spec fn spec_endpoint_error(connection: ProviderConnection, endpoint: BatchEndpoint) -> Option<Seq<char>> {
    match connection {
        ProviderConnection::OpenAi { .. } => None,
        ProviderConnection::Azure { .. } => if endpoint == BatchEndpoint::ChatCompletions
            || endpoint == BatchEndpoint::Embeddings {
            None
        } else {
            Some("Azure OpenAI batches support /v1/chat/completions and /v1/embeddings only."@)
        },
        ProviderConnection::Gemini { .. } => if endpoint == BatchEndpoint::ChatCompletions
            || endpoint == BatchEndpoint::Responses {
            None
        } else {
            Some("Gemini batches support /v1/chat/completions and /v1/responses only."@)
        },
    }
}

pub fn check_provider_batch_endpoint(connection: &ProviderConnection, endpoint: &BatchEndpoint) -> (r:
    Result<(), LLMurError>)
    ensures
        match r {
            Ok(_) => spec_endpoint_error(*connection, *endpoint) is None,
            Err(e) => e is BadRequest && spec_endpoint_error(*connection, *endpoint) == Some(
                bad_request(e),
            ),
        },
{
    match connection {
        ProviderConnection::OpenAi { .. } => Ok(()),
        ProviderConnection::Azure { .. } => if azure_batch_endpoint_supported(endpoint) {
            Ok(())
        } else {
            Err(
                LLMurError::BadRequest(
                    to_owned(
                        "Azure OpenAI batches support /v1/chat/completions and /v1/embeddings only.",
                    ),
                ),
            )
        },
        ProviderConnection::Gemini { .. } => if gemini_batch_endpoint_supported(endpoint) {
            Ok(())
        } else {
            Err(
                LLMurError::BadRequest(
                    to_owned("Gemini batches support /v1/chat/completions and /v1/responses only."),
                ),
            )
        },
    }
}

/// A refreshed provider batch: counters normalised against the expected
/// total, file references merged with the persisted ones, and the canonical
/// provider batch id if it changed.
pub open spec fn is_reconciled(
    r: (BatchObject, Option<Option<String>>),
    p: ProviderBatch,
    b: BatchObject,
    expected_total: Option<u64>,
) -> bool {
    let (n, upd) = r;
    &&& n.request_counts == spec_normalize_counts(b.status, b.request_counts, expected_total)
    &&& n.output_file_id == match b.output_file_id {
        Some(c) => Some(c),
        None => p.output_file_id,
    }
    &&& n.error_file_id == match b.error_file_id {
        Some(c) => Some(c),
        None => p.error_file_id,
    }
    &&& match upd {
        Some(Some(s)) => spec_canonical_update(p.provider_batch_id@, b.id@) == Some(Some(s@)),
        Some(None) => false,
        None => spec_canonical_update(p.provider_batch_id@, b.id@) is None,
    }
    &&& n.id == b.id
    &&& n.status == b.status
    &&& n.endpoint == b.endpoint
    &&& n.errors == b.errors
    &&& n.input_file_id == b.input_file_id
    &&& n.completion_window == b.completion_window
    &&& n.created_at == b.created_at
    &&& n.in_progress_at == b.in_progress_at
    &&& n.expires_at == b.expires_at
    &&& n.finalizing_at == b.finalizing_at
    &&& n.completed_at == b.completed_at
    &&& n.failed_at == b.failed_at
    &&& n.expired_at == b.expired_at
    &&& n.cancelling_at == b.cancelling_at
    &&& n.cancelled_at == b.cancelled_at
    &&& n.metadata == b.metadata
    &&& n.object == b.object
}

/// Reconciles what a provider reports for one of its batches with what was
/// persisted for it.
pub fn reconcile_provider_batch(
    provider_batch: &ProviderBatch,
    batch_object: BatchObject,
    expected_total: Option<u64>,
) -> (r: (BatchObject, Option<Option<String>>))
    ensures
        is_reconciled(r, *provider_batch, batch_object, expected_total),
{
    let mut batch = batch_object;
    batch.request_counts = normalize_request_counts_for_batch_status(
        &batch.status,
        &batch.request_counts,
        expected_total,
    );
    let update = canonical_provider_batch_id_update(
        provider_batch.provider_batch_id.as_str(),
        batch.id.as_str(),
    );
    batch.output_file_id = merge_provider_file_reference(
        "output",
        &batch.output_file_id,
        &provider_batch.output_file_id,
        provider_batch.provider.as_str(),
        provider_batch.deployment_id,
        provider_batch.provider_batch_id.as_str(),
    );
    batch.error_file_id = merge_provider_file_reference(
        "error",
        &batch.error_file_id,
        &provider_batch.error_file_id,
        provider_batch.provider.as_str(),
        provider_batch.deployment_id,
        provider_batch.provider_batch_id.as_str(),
    );
    (batch, update)
}

/// The status, counters and timestamps of a virtual batch, from its provider
/// batches.
#[derive(Clone, Copy, Debug)]
pub struct VirtualBatchSummary {
    pub status: VirtualBatchStatus,
    pub request_counts: Option<VirtualBatchRequestCounts>,
    pub timestamps: AggregatedTimestamps,
}

pub open spec fn virtual_statuses(b: Seq<BatchObject>) -> Seq<VirtualBatchStatus> {
    b.map_values(|x: BatchObject| batch_status_to_virtual(x.status))
}

pub open spec fn virtual_counts(b: Seq<BatchObject>) -> Seq<Option<VirtualBatchRequestCounts>> {
    b.map_values(
        |x: BatchObject|
            match x.request_counts {
                None => None,
                Some(c) => Some(counts_to_virtual(c)),
            },
    )
}

/// Sums up the provider batches of a virtual batch.
pub fn summarize_provider_batches(batches: &[BatchObject]) -> (r: VirtualBatchSummary)
    ensures
        r.status == spec_aggregate_status(virtual_statuses(batches@)),
        r.request_counts == if all_some_counts(virtual_counts(batches@)) {
            Some(fold_counts(virtual_counts(batches@)))
        } else {
            None
        },
        r.timestamps == spec_aggregate_timestamps(batches@),
{
    let mut statuses: Vec<VirtualBatchStatus> = Vec::new();
    let mut counts: Vec<Option<VirtualBatchRequestCounts>> = Vec::new();
    let mut i: usize = 0;
    while i < batches.len()
        invariant
            i <= batches@.len(),
            statuses@ =~= virtual_statuses(batches@.subrange(0, i as int)),
            counts@ =~= virtual_counts(batches@.subrange(0, i as int)),
        decreases batches@.len() - i,
    {
        statuses.push((&batches[i].status).into());
        counts.push(batch_request_counts_to_virtual(&batches[i].request_counts));
        i = i + 1;
    }
    assert(batches@.subrange(0, batches@.len() as int) =~= batches@);
    VirtualBatchSummary {
        status: aggregate_virtual_status(statuses.as_slice()),
        request_counts: aggregate_virtual_request_counts(counts),
        timestamps: aggregate_virtual_timestamps(batches),
    }
}

} // verus!
