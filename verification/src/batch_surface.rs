//! The OpenAI-surface view of a batch: lifecycle coercions, file-id
//! suppression, and the metric events that report them.

use vstd::prelude::*;
use crate::batch_types::{BatchEndpoint, BatchObject, BatchRequestCounts, BatchStatus};
use crate::batch_rules::{is_terminal_batch_status, spec_is_terminal_batch};

verus! {

/// `u64::saturating_add`.
pub fn saturating_add_u64(a: u64, b: u64) -> (r: u64)
    ensures
        r == crate::batch_rules::sat_add_u64(a, b),
{
    if a > u64::MAX - b {
        u64::MAX
    } else {
        a + b
    }
}

/// A validating batch with any line done is surfaced as in progress.
pub open spec fn surface_status(status: BatchStatus, counts: Option<BatchRequestCounts>) -> BatchStatus {
    match counts {
        Some(c) => if status == BatchStatus::Validating && (c.completed > 0 || c.failed > 0) {
            BatchStatus::InProgress
        } else {
            status
        },
        None => status,
    }
}

pub open spec fn failed_count(counts: Option<BatchRequestCounts>) -> u64 {
    match counts {
        Some(c) => c.failed,
        None => 0,
    }
}

/// Output files are visible only once the batch is terminal.
pub open spec fn surface_output(status: BatchStatus, counts: Option<BatchRequestCounts>, output: Option<String>) -> Option<String> {
    if spec_is_terminal_batch(surface_status(status, counts)) {
        output
    } else {
        None
    }
}

/// Error files are visible only once the batch is terminal, and only when a
/// line failed or the batch itself failed.
pub open spec fn surface_error(status: BatchStatus, counts: Option<BatchRequestCounts>, error: Option<String>) -> Option<String> {
    let s = surface_status(status, counts);
    if !spec_is_terminal_batch(s) {
        None
    } else if failed_count(counts) == 0 && s != BatchStatus::Failed {
        None
    } else {
        error
    }
}

/// `r` is `b` with its status and file ids replaced as the surface rules say.
pub open spec fn is_surface_of(r: BatchObject, b: BatchObject) -> bool {
    &&& r.status == surface_status(b.status, b.request_counts)
    &&& r.output_file_id == surface_output(b.status, b.request_counts, b.output_file_id)
    &&& r.error_file_id == surface_error(b.status, b.request_counts, b.error_file_id)
    &&& r.request_counts == b.request_counts
    &&& r.id == b.id
    &&& r.object == b.object
    &&& r.endpoint == b.endpoint
    &&& r.errors == b.errors
    &&& r.input_file_id == b.input_file_id
    &&& r.completion_window == b.completion_window
    &&& r.created_at == b.created_at
    &&& r.in_progress_at == b.in_progress_at
    &&& r.expires_at == b.expires_at
    &&& r.finalizing_at == b.finalizing_at
    &&& r.completed_at == b.completed_at
    &&& r.failed_at == b.failed_at
    &&& r.expired_at == b.expired_at
    &&& r.cancelling_at == b.cancelling_at
    &&& r.cancelled_at == b.cancelled_at
    &&& r.metadata == b.metadata
}

/// The batch as the OpenAI surface shows it.
pub fn normalize_batch_for_openai_surface(batch: BatchObject) -> (r: BatchObject)
    ensures
        is_surface_of(r, batch),
{
    let ghost orig = batch;
    let mut batch = batch;
    if batch.status == BatchStatus::Validating {
        if let Some(request_counts) = batch.request_counts.as_mut() {
            let progressed = saturating_add_u64(request_counts.completed, request_counts.failed) > 0;
            if progressed {
                batch.status = BatchStatus::InProgress;
            } else {
                request_counts.completed = 0;
                request_counts.failed = 0;
            }
        }
    }
    assert(batch.request_counts == orig.request_counts);
    if !is_terminal_batch_status(&batch.status) {
        batch.output_file_id = None;
        batch.error_file_id = None;
        return batch;
    }
    let failed: u64 = match &batch.request_counts {
        Some(c) => c.failed,
        None => 0,
    };
    if failed == 0 && batch.status != BatchStatus::Failed {
        batch.error_file_id = None;
    }
    batch
}

/// Before a batch is terminal, neither its output nor its error file is shown.
pub proof fn law_surface_hides_files_until_terminal(b: BatchObject, r: BatchObject)
    requires
        is_surface_of(r, b),
        !spec_is_terminal_batch(r.status),
    ensures
        r.output_file_id is None,
        r.error_file_id is None,
{
}

/// A terminal batch without failures shows no error file unless the batch
/// itself failed.
pub proof fn law_surface_error_file_needs_failures(b: BatchObject, r: BatchObject)
    requires
        is_surface_of(r, b),
        failed_count(b.request_counts) == 0,
        r.status != BatchStatus::Failed,
    ensures
        r.error_file_id is None,
{
}

/// The surface view of a surface view is itself.
pub proof fn law_surface_idempotent(b: BatchObject, r: BatchObject, r2: BatchObject)
    requires
        is_surface_of(r, b),
        is_surface_of(r2, r),
    ensures
        r2 == r,
{
}

/// The only status the surface rewrites is validating, into in progress, and
/// only once some line has completed or failed.
pub proof fn law_surface_status_changes(b: BatchObject, r: BatchObject)
    requires
        is_surface_of(r, b),
        r.status != b.status,
    ensures
        b.status == BatchStatus::Validating,
        r.status == BatchStatus::InProgress,
        b.request_counts is Some,
        b.request_counts.unwrap().completed > 0 || b.request_counts.unwrap().failed > 0,
{
}

/// What the surface rules did to a batch, for metrics.
#[derive(Clone, Copy, Debug, PartialEq, Eq, Structural)]
pub enum SurfaceMetricEvent {
    /// The status was rewritten.
    StatusCoercion { endpoint: BatchEndpoint, from: BatchStatus, to: BatchStatus },
    /// File ids were hidden because the batch is not terminal.
    FileIdSuppression { endpoint: BatchEndpoint, status: BatchStatus },
    /// The error file id was hidden because a terminal batch had no failures.
    ErrorFileSuppression { endpoint: BatchEndpoint, status: BatchStatus },
}

/// What the metric events need to know of a batch before the surface rules
/// ran.
#[derive(Clone, Copy, Debug, PartialEq, Eq, Structural)]
pub struct SurfaceFacts {
    pub status: BatchStatus,
    pub had_output_file: bool,
    pub had_error_file: bool,
    /// The failed count, 0 without counts.
    pub failed: u64,
}

pub open spec fn spec_surface_facts(b: BatchObject) -> SurfaceFacts {
    SurfaceFacts {
        status: b.status,
        had_output_file: b.output_file_id is Some,
        had_error_file: b.error_file_id is Some,
        failed: failed_count(b.request_counts),
    }
}

/// The facts of a batch that its metric events depend on.
pub fn surface_facts(b: &BatchObject) -> (r: SurfaceFacts)
    ensures
        r == spec_surface_facts(*b),
{
    SurfaceFacts {
        status: b.status,
        had_output_file: b.output_file_id.is_some(),
        had_error_file: b.error_file_id.is_some(),
        failed: match &b.request_counts {
            Some(c) => c.failed,
            None => 0,
        },
    }
}

/// The metric events that report how a batch with facts `f` became `n`:
/// a status coercion, a file-id suppression while not terminal, and an
/// error-file suppression of a terminal batch without failures, in that
/// order, each where it happened.
pub open spec fn spec_metric_events(f: SurfaceFacts, n: BatchObject) -> Seq<SurfaceMetricEvent> {
    let s1: Seq<SurfaceMetricEvent> = if n.status != f.status {
        seq![SurfaceMetricEvent::StatusCoercion { endpoint: n.endpoint, from: f.status, to: n.status }]
    } else {
        seq![]
    };
    let s2: Seq<SurfaceMetricEvent> = if !spec_is_terminal_batch(n.status) && (f.had_output_file
        || f.had_error_file) {
        seq![SurfaceMetricEvent::FileIdSuppression { endpoint: n.endpoint, status: n.status }]
    } else {
        seq![]
    };
    let s3: Seq<SurfaceMetricEvent> = if spec_is_terminal_batch(n.status) && f.had_error_file
        && n.error_file_id is None && f.failed == 0 && n.status != BatchStatus::Failed {
        seq![SurfaceMetricEvent::ErrorFileSuppression { endpoint: n.endpoint, status: n.status }]
    } else {
        seq![]
    };
    s1 + s2 + s3
}

/// The metric events that describe how a batch with facts `original`
/// became `normalized`.
pub fn surface_metric_events(original: &SurfaceFacts, normalized: &BatchObject) -> (r: Vec<
    SurfaceMetricEvent,
>)
    ensures
        r@ == spec_metric_events(*original, *normalized),
{
    let mut r: Vec<SurfaceMetricEvent> = Vec::new();
    if normalized.status != original.status {
        r.push(
            SurfaceMetricEvent::StatusCoercion {
                endpoint: normalized.endpoint,
                from: original.status,
                to: normalized.status,
            },
        );
    }
    if !is_terminal_batch_status(&normalized.status) && (original.had_output_file
        || original.had_error_file) {
        r.push(
            SurfaceMetricEvent::FileIdSuppression {
                endpoint: normalized.endpoint,
                status: normalized.status,
            },
        );
    }
    if is_terminal_batch_status(&normalized.status) && original.had_error_file
        && normalized.error_file_id.is_none() && original.failed == 0 && normalized.status
        != BatchStatus::Failed {
        r.push(
            SurfaceMetricEvent::ErrorFileSuppression {
                endpoint: normalized.endpoint,
                status: normalized.status,
            },
        );
    }
    assert(r@ =~= spec_metric_events(*original, *normalized));
    r
}

/// The batch as the OpenAI surface shows it; where a metrics log is given,
/// each metric event that reports a rule at work is appended to it, in the
/// order `spec_metric_events` gives.
pub fn normalize_batch_for_openai_surface_with_metrics(
    batch: BatchObject,
    metrics: &mut Option<Vec<SurfaceMetricEvent>>,
) -> (r: BatchObject)
    ensures
        is_surface_of(r, batch),
        *old(metrics) is None ==> *final(metrics) is None,
        *old(metrics) matches Some(v) ==> (*final(metrics) matches Some(w) && w@ == v@
            + spec_metric_events(spec_surface_facts(batch), r)),
{
    let facts = surface_facts(&batch);
    let normalized = normalize_batch_for_openai_surface(batch);
    match metrics.take() {
        None => {},
        Some(mut log) => {
            let events = surface_metric_events(&facts, &normalized);
            let ghost start = log@;
            let mut i: usize = 0;
            while i < events.len()
                invariant
                    i <= events@.len(),
                    log@ == start + events@.subrange(0, i as int),
                decreases events@.len() - i,
            {
                log.push(events[i]);
                i = i + 1;
                assert(log@ =~= start + events@.subrange(0, i as int));
            }
            assert(events@.subrange(0, events@.len() as int) =~= events@);
            *metrics = Some(log);
        },
    }
    normalized
}

/// A batch shown as ended (completed, failed, cancelled or expired) with a
/// failed line keeps its error file on the surface.
pub proof fn law_surface_keeps_error_file_with_failures(b: BatchObject, r: BatchObject)
    requires
        is_surface_of(r, b),
        r.status == BatchStatus::Completed || r.status == BatchStatus::Failed || r.status
            == BatchStatus::Cancelled || r.status == BatchStatus::Expired,
        b.request_counts matches Some(c) && c.failed > 0,
    ensures
        r.error_file_id == b.error_file_id,
{
}

/// A batch shown as failed keeps its error file on the surface.
pub proof fn law_surface_failed_keeps_error_file(b: BatchObject, r: BatchObject)
    requires
        is_surface_of(r, b),
        r.status == BatchStatus::Failed,
    ensures
        r.error_file_id == b.error_file_id,
{
}

} // verus!
