//! Fan-out bookkeeping: merging what the provider batches report into the
//! virtual batch that the caller sees.

use vstd::prelude::*;
use crate::batch_types::{
    BatchEndpoint, BatchObject, BatchObjectType, VirtualBatchStatus, virtual_endpoint_to_batch,
    virtual_completion_window_to_batch, virtual_status_to_batch,
};
use crate::batch_rules::{
    clamp_nonneg, counts_to_batch, spec_is_terminal_virtual, is_terminal_virtual_status,
    virtual_request_counts_to_batch,
};
use crate::ids::{DeploymentId, VirtualFileId};
use crate::records::VirtualBatch;
use crate::text::{is_prefix, trim, trim_str, starts_with, seq_eq, to_owned};
use crate::uuid_text::{uuid_hyphenated, uuid_to_string};

verus! {

/// Latest lifecycle timestamps over the provider batches of a virtual batch.
#[derive(Clone, Copy, Debug, PartialEq, Eq, Structural)]
pub struct AggregatedTimestamps {
    pub in_progress_at: Option<i64>,
    pub expires_at: Option<i64>,
    pub finalizing_at: Option<i64>,
    pub completed_at: Option<i64>,
    pub failed_at: Option<i64>,
    pub expired_at: Option<i64>,
    pub cancelling_at: Option<i64>,
    pub cancelled_at: Option<i64>,
}

/// One step of the running maximum: a provider batch that lacks the
/// timestamp clears it; otherwise the larger value wins (each value cast to
/// `i64`).
pub open spec fn spec_max_timestamp(current: Option<i64>, value: Option<u64>) -> Option<i64> {
    match value {
        None => None,
        Some(v) => Some(
            match current {
                Some(c) => if c >= (v as i64) {
                    c
                } else {
                    v as i64
                },
                None => v as i64,
            },
        ),
    }
}

pub fn max_timestamp(current: Option<i64>, value: Option<u64>) -> (r: Option<i64>)
    ensures
        r == spec_max_timestamp(current, value),
{
    let value = match value {
        Some(v) => v as i64,
        None => return None,
    };
    match current {
        Some(existing) => Some(
            if existing >= value {
                existing
            } else {
                value
            },
        ),
        None => Some(value),
    }
}

/// The running maximum over a sequence of reported timestamps.
pub open spec fn fold_max_timestamp(s: Seq<Option<u64>>) -> Option<i64>
    decreases s.len(),
{
    if s.len() == 0 {
        None
    } else {
        spec_max_timestamp(fold_max_timestamp(s.drop_last()), s.last())
    }
}

pub open spec fn spec_aggregate_timestamps(b: Seq<BatchObject>) -> AggregatedTimestamps {
    AggregatedTimestamps {
        in_progress_at: fold_max_timestamp(b.map_values(|x: BatchObject| x.in_progress_at)),
        expires_at: fold_max_timestamp(b.map_values(|x: BatchObject| x.expires_at)),
        finalizing_at: fold_max_timestamp(b.map_values(|x: BatchObject| x.finalizing_at)),
        completed_at: fold_max_timestamp(b.map_values(|x: BatchObject| x.completed_at)),
        failed_at: fold_max_timestamp(b.map_values(|x: BatchObject| x.failed_at)),
        expired_at: fold_max_timestamp(b.map_values(|x: BatchObject| x.expired_at)),
        cancelling_at: fold_max_timestamp(b.map_values(|x: BatchObject| x.cancelling_at)),
        cancelled_at: fold_max_timestamp(b.map_values(|x: BatchObject| x.cancelled_at)),
    }
}

proof fn lemma_fold_step(b: Seq<BatchObject>, k: int)
    requires
        0 <= k < b.len(),
    ensures
        spec_aggregate_timestamps(b.subrange(0, k + 1)) == (AggregatedTimestamps {
            in_progress_at: spec_max_timestamp(
                spec_aggregate_timestamps(b.subrange(0, k)).in_progress_at,
                b[k].in_progress_at,
            ),
            expires_at: spec_max_timestamp(
                spec_aggregate_timestamps(b.subrange(0, k)).expires_at,
                b[k].expires_at,
            ),
            finalizing_at: spec_max_timestamp(
                spec_aggregate_timestamps(b.subrange(0, k)).finalizing_at,
                b[k].finalizing_at,
            ),
            completed_at: spec_max_timestamp(
                spec_aggregate_timestamps(b.subrange(0, k)).completed_at,
                b[k].completed_at,
            ),
            failed_at: spec_max_timestamp(
                spec_aggregate_timestamps(b.subrange(0, k)).failed_at,
                b[k].failed_at,
            ),
            expired_at: spec_max_timestamp(
                spec_aggregate_timestamps(b.subrange(0, k)).expired_at,
                b[k].expired_at,
            ),
            cancelling_at: spec_max_timestamp(
                spec_aggregate_timestamps(b.subrange(0, k)).cancelling_at,
                b[k].cancelling_at,
            ),
            cancelled_at: spec_max_timestamp(
                spec_aggregate_timestamps(b.subrange(0, k)).cancelled_at,
                b[k].cancelled_at,
            ),
        }),
{
    let p = b.subrange(0, k + 1);
    let q = b.subrange(0, k);
    assert(p.map_values(|x: BatchObject| x.in_progress_at).drop_last() =~= q.map_values(
        |x: BatchObject| x.in_progress_at,
    ));
    assert(p.map_values(|x: BatchObject| x.expires_at).drop_last() =~= q.map_values(
        |x: BatchObject| x.expires_at,
    ));
    assert(p.map_values(|x: BatchObject| x.finalizing_at).drop_last() =~= q.map_values(
        |x: BatchObject| x.finalizing_at,
    ));
    assert(p.map_values(|x: BatchObject| x.completed_at).drop_last() =~= q.map_values(
        |x: BatchObject| x.completed_at,
    ));
    assert(p.map_values(|x: BatchObject| x.failed_at).drop_last() =~= q.map_values(
        |x: BatchObject| x.failed_at,
    ));
    assert(p.map_values(|x: BatchObject| x.expired_at).drop_last() =~= q.map_values(
        |x: BatchObject| x.expired_at,
    ));
    assert(p.map_values(|x: BatchObject| x.cancelling_at).drop_last() =~= q.map_values(
        |x: BatchObject| x.cancelling_at,
    ));
    assert(p.map_values(|x: BatchObject| x.cancelled_at).drop_last() =~= q.map_values(
        |x: BatchObject| x.cancelled_at,
    ));
}

/// Latest of each lifecycle timestamp over the given provider batches.
pub fn aggregate_virtual_timestamps(batches: &[BatchObject]) -> (r: AggregatedTimestamps)
    ensures
        r == spec_aggregate_timestamps(batches@),
{
    let mut result = AggregatedTimestamps {
        in_progress_at: None,
        expires_at: None,
        finalizing_at: None,
        completed_at: None,
        failed_at: None,
        expired_at: None,
        cancelling_at: None,
        cancelled_at: None,
    };
    let mut i: usize = 0;
    assert(batches@.subrange(0, 0) =~= Seq::<BatchObject>::empty());
    while i < batches.len()
        invariant
            i <= batches@.len(),
            result == spec_aggregate_timestamps(batches@.subrange(0, i as int)),
        decreases batches@.len() - i,
    {
        let b = &batches[i];
        proof {
            lemma_fold_step(batches@, i as int);
        }
        result.in_progress_at = max_timestamp(result.in_progress_at, b.in_progress_at);
        result.expires_at = max_timestamp(result.expires_at, b.expires_at);
        result.finalizing_at = max_timestamp(result.finalizing_at, b.finalizing_at);
        result.completed_at = max_timestamp(result.completed_at, b.completed_at);
        result.failed_at = max_timestamp(result.failed_at, b.failed_at);
        result.expired_at = max_timestamp(result.expired_at, b.expired_at);
        result.cancelling_at = max_timestamp(result.cancelling_at, b.cancelling_at);
        result.cancelled_at = max_timestamp(result.cancelled_at, b.cancelled_at);
        i = i + 1;
    }
    assert(batches@.subrange(0, batches@.len() as int) =~= batches@);
    result
}

/// A provider file reference after a refresh: the provider's current value
/// when it reports one, else the persisted one.
pub fn merge_provider_file_reference(
    kind: &str,
    current_reference: &Option<String>,
    persisted_reference: &Option<String>,
    provider: &str,
    deployment_id: DeploymentId,
    provider_batch_id: &str,
) -> (r: Option<String>)
    ensures
        r == match *current_reference {
            Some(c) => Some(c),
            None => *persisted_reference,
        },
{
    match current_reference {
        Some(current) => Some(current.clone()),
        None => match persisted_reference {
            Some(persisted) => Some(persisted.clone()),
            None => None,
        },
    }
}

/// Gemini reports operation-style ids at first and canonical `batches/...`
/// ids later; the canonical id replaces the stored one once it differs.
pub open spec fn spec_canonical_update(current: Seq<char>, parsed: Seq<char>) -> Option<Option<Seq<char>>> {
    let p = trim(parsed);
    if is_prefix("batches/"@, p) && p != current {
        Some(Some(p))
    } else {
        None
    }
}

pub fn canonical_provider_batch_id_update(
    current_provider_batch_id: &str,
    parsed_batch_id: &str,
) -> (r: Option<Option<String>>)
    ensures
        match r {
            Some(Some(s)) => spec_canonical_update(current_provider_batch_id@, parsed_batch_id@)
                == Some(Some(s@)),
            Some(None) => false,
            None => spec_canonical_update(current_provider_batch_id@, parsed_batch_id@) is None,
        },
{
    let parsed = trim_str(parsed_batch_id);
    if starts_with(parsed, "batches/") && !seq_eq(parsed, current_provider_batch_id) {
        return Some(Some(to_owned(parsed)));
    }
    None
}

/// Only a terminal virtual batch keeps its persisted output file.
pub fn persisted_output_file_for_status(
    status: &VirtualBatchStatus,
    output_file_id: Option<VirtualFileId>,
) -> (r: Option<VirtualFileId>)
    ensures
        r == if spec_is_terminal_virtual(*status) {
            output_file_id
        } else {
            None
        },
{
    if is_terminal_virtual_status(status) {
        output_file_id
    } else {
        None
    }
}

/// Azure OpenAI batches serve chat completions and embeddings.
pub fn azure_batch_endpoint_supported(endpoint: &BatchEndpoint) -> (r: bool)
    ensures
        r == (*endpoint == BatchEndpoint::ChatCompletions || *endpoint == BatchEndpoint::Embeddings),
{
    match endpoint {
        BatchEndpoint::ChatCompletions | BatchEndpoint::Embeddings => true,
        _ => false,
    }
}

/// Gemini batches serve chat completions and responses.
pub fn gemini_batch_endpoint_supported(endpoint: &BatchEndpoint) -> (r: bool)
    ensures
        r == (*endpoint == BatchEndpoint::ChatCompletions || *endpoint == BatchEndpoint::Responses),
{
    match endpoint {
        BatchEndpoint::ChatCompletions | BatchEndpoint::Responses => true,
        _ => false,
    }
}

pub open spec fn nonneg_timestamp(v: Option<i64>) -> Option<u64> {
    match v {
        Some(x) => Some(clamp_nonneg(x)),
        None => None,
    }
}

fn nonneg_timestamp_exec(v: Option<i64>) -> (r: Option<u64>)
    ensures
        r == nonneg_timestamp(v),
{
    match v {
        Some(x) => Some(if x < 0 { 0 } else { x as u64 }),
        None => None,
    }
}

pub open spec fn file_id_text(v: Option<VirtualFileId>) -> Option<Seq<char>> {
    match v {
        Some(id) => Some(uuid_hyphenated(id.0)),
        None => None,
    }
}

pub open spec fn opt_string_view(v: Option<String>) -> Option<Seq<char>> {
    match v {
        Some(s) => Some(s@),
        None => None,
    }
}

fn file_id_string(v: Option<VirtualFileId>) -> (r: Option<String>)
    ensures
        opt_string_view(r) == file_id_text(v),
{
    match v {
        Some(id) => Some(uuid_to_string(id.0)),
        None => None,
    }
}

/// The surface batch object of a persisted virtual batch: identifiers in
/// hyphenated UUID form, negative timestamps and counters raised to zero.
pub fn virtual_batch_to_batch_object(batch: &VirtualBatch) -> (r: BatchObject)
    ensures
        r.id@ == uuid_hyphenated(batch.id.0),
        r.object == BatchObjectType::Batch,
        r.endpoint == virtual_endpoint_to_batch(batch.endpoint),
        r.errors is None,
        r.input_file_id@ == uuid_hyphenated(batch.input_file_id.0),
        r.completion_window == virtual_completion_window_to_batch(batch.completion_window),
        r.status == virtual_status_to_batch(batch.status),
        opt_string_view(r.output_file_id) == file_id_text(batch.output_file_id),
        opt_string_view(r.error_file_id) == file_id_text(batch.error_file_id),
        r.created_at == clamp_nonneg(batch.created_at),
        r.in_progress_at == nonneg_timestamp(batch.in_progress_at),
        r.expires_at == nonneg_timestamp(batch.expires_at),
        r.finalizing_at == nonneg_timestamp(batch.finalizing_at),
        r.completed_at == nonneg_timestamp(batch.completed_at),
        r.failed_at == nonneg_timestamp(batch.failed_at),
        r.expired_at == nonneg_timestamp(batch.expired_at),
        r.cancelling_at == nonneg_timestamp(batch.cancelling_at),
        r.cancelled_at == nonneg_timestamp(batch.cancelled_at),
        r.request_counts == match batch.request_counts {
            None => None,
            Some(c) => Some(counts_to_batch(c)),
        },
        r.metadata matches Some(m) ==> batch.metadata matches Some(n) && m@ == n@,
        r.metadata is None <==> batch.metadata is None,
{
    BatchObject {
        id: uuid_to_string(batch.id.0),
        object: BatchObjectType::Batch,
        endpoint: (&batch.endpoint).into(),
        errors: None,
        input_file_id: uuid_to_string(batch.input_file_id.0),
        completion_window: (&batch.completion_window).into(),
        status: (&batch.status).into(),
        output_file_id: file_id_string(batch.output_file_id),
        error_file_id: file_id_string(batch.error_file_id),
        created_at: if batch.created_at < 0 { 0 } else { batch.created_at as u64 },
        in_progress_at: nonneg_timestamp_exec(batch.in_progress_at),
        expires_at: nonneg_timestamp_exec(batch.expires_at),
        finalizing_at: nonneg_timestamp_exec(batch.finalizing_at),
        completed_at: nonneg_timestamp_exec(batch.completed_at),
        failed_at: nonneg_timestamp_exec(batch.failed_at),
        expired_at: nonneg_timestamp_exec(batch.expired_at),
        cancelling_at: nonneg_timestamp_exec(batch.cancelling_at),
        cancelled_at: nonneg_timestamp_exec(batch.cancelled_at),
        request_counts: virtual_request_counts_to_batch(&batch.request_counts),
        metadata: match &batch.metadata {
            Some(m) => Some(m.clone()),
            None => None,
        },
    }
}

} // verus!
