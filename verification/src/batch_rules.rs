//! Reconciliation rules for batches: terminal states, status precedence when
//! one virtual batch fans out to several provider batches, request-count
//! normalisation, and the OpenAI-surface view of a batch.

use vstd::prelude::*;
use crate::batch_types::{
    BatchEndpoint, BatchRequestCounts, BatchStatus, VirtualBatchRequestCounts, VirtualBatchStatus,
};

verus! {

pub open spec fn spec_is_terminal_batch(s: BatchStatus) -> bool {
    s == BatchStatus::Completed || s == BatchStatus::Failed || s == BatchStatus::Cancelled
        || s == BatchStatus::Expired
}

pub open spec fn spec_is_terminal_virtual(s: VirtualBatchStatus) -> bool {
    s == VirtualBatchStatus::Completed || s == VirtualBatchStatus::Failed || s
        == VirtualBatchStatus::Cancelled || s == VirtualBatchStatus::Expired
}

/// Completed, failed, cancelled and expired batches no longer change.
pub fn is_terminal_batch_status(status: &BatchStatus) -> (r: bool)
    ensures
        r == spec_is_terminal_batch(*status),
{
    match status {
        BatchStatus::Completed | BatchStatus::Failed | BatchStatus::Cancelled
        | BatchStatus::Expired => true,
        _ => false,
    }
}

/// Completed, failed, cancelled and expired virtual batches no longer change.
pub fn is_terminal_virtual_status(status: &VirtualBatchStatus) -> (r: bool)
    ensures
        r == spec_is_terminal_virtual(*status),
{
    match status {
        VirtualBatchStatus::Completed | VirtualBatchStatus::Failed
        | VirtualBatchStatus::Cancelled | VirtualBatchStatus::Expired => true,
        _ => false,
    }
}

pub open spec fn spec_endpoint_label(e: BatchEndpoint) -> Seq<char> {
    match e {
        BatchEndpoint::Responses => "/v1/responses"@,
        BatchEndpoint::ChatCompletions => "/v1/chat/completions"@,
        BatchEndpoint::Embeddings => "/v1/embeddings"@,
        BatchEndpoint::Completions => "/v1/completions"@,
    }
}

/// The request path of an endpoint, used as a metric label.
pub fn batch_endpoint_metric_label(endpoint: &BatchEndpoint) -> (r: &'static str)
    ensures
        r@ == spec_endpoint_label(*endpoint),
{
    match endpoint {
        BatchEndpoint::Responses => "/v1/responses",
        BatchEndpoint::ChatCompletions => "/v1/chat/completions",
        BatchEndpoint::Embeddings => "/v1/embeddings",
        BatchEndpoint::Completions => "/v1/completions",
    }
}

pub open spec fn spec_status_label(s: BatchStatus) -> Seq<char> {
    match s {
        BatchStatus::Validating => "validating"@,
        BatchStatus::Failed => "failed"@,
        BatchStatus::InProgress => "in_progress"@,
        BatchStatus::Finalizing => "finalizing"@,
        BatchStatus::Completed => "completed"@,
        BatchStatus::Expired => "expired"@,
        BatchStatus::Cancelling => "cancelling"@,
        BatchStatus::Cancelled => "cancelled"@,
    }
}

/// The wire name of a status, used as a metric label.
pub fn batch_status_metric_label(status: &BatchStatus) -> (r: &'static str)
    ensures
        r@ == spec_status_label(*status),
{
    match status {
        BatchStatus::Validating => "validating",
        BatchStatus::Failed => "failed",
        BatchStatus::InProgress => "in_progress",
        BatchStatus::Finalizing => "finalizing",
        BatchStatus::Completed => "completed",
        BatchStatus::Expired => "expired",
        BatchStatus::Cancelling => "cancelling",
        BatchStatus::Cancelled => "cancelled",
    }
}

/// Surface counters as persisted counters: each value cast to `i64`.
pub open spec fn counts_to_virtual(c: BatchRequestCounts) -> VirtualBatchRequestCounts {
    VirtualBatchRequestCounts {
        total: c.total as i64,
        completed: c.completed as i64,
        failed: c.failed as i64,
    }
}

/// Surface counters as persisted counters (each value cast to `i64`).
pub fn batch_request_counts_to_virtual(counts: &Option<BatchRequestCounts>) -> (r: Option<
    VirtualBatchRequestCounts,
>)
    ensures
        r == match *counts {
            None => None,
            Some(c) => Some(counts_to_virtual(c)),
        },
{
    match counts {
        None => None,
        Some(c) => Some(
            VirtualBatchRequestCounts {
                total: c.total as i64,
                completed: c.completed as i64,
                failed: c.failed as i64,
            },
        ),
    }
}

pub open spec fn clamp_nonneg(v: i64) -> u64 {
    if v < 0 {
        0
    } else {
        v as u64
    }
}

/// Persisted counters as surface counters: negative values become zero.
pub open spec fn counts_to_batch(c: VirtualBatchRequestCounts) -> BatchRequestCounts {
    BatchRequestCounts {
        total: clamp_nonneg(c.total),
        completed: clamp_nonneg(c.completed),
        failed: clamp_nonneg(c.failed),
    }
}

/// Persisted counters as surface counters; negative values become zero.
pub fn virtual_request_counts_to_batch(counts: &Option<VirtualBatchRequestCounts>) -> (r: Option<
    BatchRequestCounts,
>)
    ensures
        r == match *counts {
            None => None,
            Some(c) => Some(counts_to_batch(c)),
        },
{
    match counts {
        None => None,
        Some(c) => {
            let total: u64 = if c.total < 0 { 0 } else { c.total as u64 };
            let completed: u64 = if c.completed < 0 { 0 } else { c.completed as u64 };
            let failed: u64 = if c.failed < 0 { 0 } else { c.failed as u64 };
            Some(BatchRequestCounts { total, completed, failed })
        },
    }
}

pub open spec fn has_status(s: Seq<VirtualBatchStatus>, v: VirtualBatchStatus) -> bool {
    exists|i: int| 0 <= i < s.len() && s[i] == v
}

pub open spec fn all_status(s: Seq<VirtualBatchStatus>, v: VirtualBatchStatus) -> bool {
    forall|i: int| 0 <= i < s.len() ==> s[i] == v
}

/// Status of a virtual batch from the statuses of its provider batches: any
/// failure dominates; completed needs every provider batch completed; then
/// cancelling, cancelled, expired, finalizing and in-progress in that order;
/// validating otherwise.
pub open spec fn spec_aggregate_status(s: Seq<VirtualBatchStatus>) -> VirtualBatchStatus {
    if has_status(s, VirtualBatchStatus::Failed) {
        VirtualBatchStatus::Failed
    } else if all_status(s, VirtualBatchStatus::Completed) {
        VirtualBatchStatus::Completed
    } else if has_status(s, VirtualBatchStatus::Cancelling) {
        VirtualBatchStatus::Cancelling
    } else if has_status(s, VirtualBatchStatus::Cancelled) {
        VirtualBatchStatus::Cancelled
    } else if has_status(s, VirtualBatchStatus::Expired) {
        VirtualBatchStatus::Expired
    } else if has_status(s, VirtualBatchStatus::Finalizing) {
        VirtualBatchStatus::Finalizing
    } else if has_status(s, VirtualBatchStatus::InProgress) {
        VirtualBatchStatus::InProgress
    } else {
        VirtualBatchStatus::Validating
    }
}

fn any_status(statuses: &[VirtualBatchStatus], v: VirtualBatchStatus) -> (r: bool)
    ensures
        r == has_status(statuses@, v),
{
    let mut i: usize = 0;
    while i < statuses.len()
        invariant
            i <= statuses@.len(),
            forall|j: int| 0 <= j < i ==> statuses@[j] != v,
        decreases statuses@.len() - i,
    {
        if statuses[i] == v {
            return true;
        }
        i = i + 1;
    }
    false
}

fn every_status(statuses: &[VirtualBatchStatus], v: VirtualBatchStatus) -> (r: bool)
    ensures
        r == all_status(statuses@, v),
{
    let mut i: usize = 0;
    while i < statuses.len()
        invariant
            i <= statuses@.len(),
            forall|j: int| 0 <= j < i ==> statuses@[j] == v,
        decreases statuses@.len() - i,
    {
        if statuses[i] != v {
            return false;
        }
        i = i + 1;
    }
    true
}

pub fn aggregate_virtual_status(statuses: &[VirtualBatchStatus]) -> (r: VirtualBatchStatus)
    ensures
        r == spec_aggregate_status(statuses@),
{
    if any_status(statuses, VirtualBatchStatus::Failed) {
        return VirtualBatchStatus::Failed;
    }
    if every_status(statuses, VirtualBatchStatus::Completed) {
        return VirtualBatchStatus::Completed;
    }
    if any_status(statuses, VirtualBatchStatus::Cancelling) {
        return VirtualBatchStatus::Cancelling;
    }
    if any_status(statuses, VirtualBatchStatus::Cancelled) {
        return VirtualBatchStatus::Cancelled;
    }
    if any_status(statuses, VirtualBatchStatus::Expired) {
        return VirtualBatchStatus::Expired;
    }
    if any_status(statuses, VirtualBatchStatus::Finalizing) {
        return VirtualBatchStatus::Finalizing;
    }
    if any_status(statuses, VirtualBatchStatus::InProgress) {
        return VirtualBatchStatus::InProgress;
    }
    VirtualBatchStatus::Validating
}

/// `i64::saturating_add`.
pub open spec fn sat_add_i64(a: i64, b: i64) -> i64 {
    if a + b > i64::MAX {
        i64::MAX
    } else if a + b < i64::MIN {
        i64::MIN
    } else {
        (a + b) as i64
    }
}

/// `i64::saturating_add`.
pub fn saturating_add_i64(a: i64, b: i64) -> (r: i64)
    ensures
        r == sat_add_i64(a, b),
{
    if b > 0 && a > i64::MAX - b {
        i64::MAX
    } else if b < 0 && a < i64::MIN - b {
        i64::MIN
    } else {
        a + b
    }
}

pub open spec fn all_some_counts(s: Seq<Option<VirtualBatchRequestCounts>>) -> bool {
    forall|i: int| 0 <= i < s.len() ==> s[i] is Some
}

/// Left fold of the counters with saturating addition.
pub open spec fn fold_counts(s: Seq<Option<VirtualBatchRequestCounts>>) -> VirtualBatchRequestCounts
    decreases s.len(),
{
    if s.len() == 0 {
        VirtualBatchRequestCounts { total: 0, completed: 0, failed: 0 }
    } else {
        let acc = fold_counts(s.drop_last());
        let c = s.last().unwrap();
        VirtualBatchRequestCounts {
            total: sat_add_i64(acc.total, c.total),
            completed: sat_add_i64(acc.completed, c.completed),
            failed: sat_add_i64(acc.failed, c.failed),
        }
    }
}

/// Counters of a virtual batch: unknown if any provider batch's counters are
/// unknown, otherwise the saturating sums.
pub fn aggregate_virtual_request_counts(counts: Vec<Option<VirtualBatchRequestCounts>>) -> (r:
    Option<VirtualBatchRequestCounts>)
    ensures
        r == if all_some_counts(counts@) {
            Some(fold_counts(counts@))
        } else {
            None
        },
{
    let mut i: usize = 0;
    while i < counts.len()
        invariant
            i <= counts@.len(),
            forall|j: int| 0 <= j < i ==> counts@[j] is Some,
        decreases counts@.len() - i,
    {
        if counts[i].is_none() {
            return None;
        }
        i = i + 1;
    }
    let mut total: i64 = 0;
    let mut completed: i64 = 0;
    let mut failed: i64 = 0;
    let mut k: usize = 0;
    while k < counts.len()
        invariant
            k <= counts@.len(),
            all_some_counts(counts@),
            fold_counts(counts@.subrange(0, k as int)) == (VirtualBatchRequestCounts {
                total,
                completed,
                failed,
            }),
        decreases counts@.len() - k,
    {
        let c = counts[k].unwrap();
        assert(counts@.subrange(0, k + 1).drop_last() =~= counts@.subrange(0, k as int));
        total = saturating_add_i64(total, c.total);
        completed = saturating_add_i64(completed, c.completed);
        failed = saturating_add_i64(failed, c.failed);
        k = k + 1;
    }
    assert(counts@.subrange(0, counts@.len() as int) =~= counts@);
    Some(VirtualBatchRequestCounts { total, completed, failed })
}

/// `u64::saturating_sub`.
pub open spec fn sat_sub_u64(a: u64, b: u64) -> u64 {
    if a >= b {
        (a - b) as u64
    } else {
        0
    }
}

/// `u64::saturating_add`.
pub open spec fn sat_add_u64(a: u64, b: u64) -> u64 {
    if a + b > u64::MAX {
        u64::MAX
    } else {
        (a + b) as u64
    }
}

/// Step one: the provider counters, or zero progress over the expected total;
/// the expected total, when known, replaces the reported one.
pub open spec fn counts_seed(counts: Option<BatchRequestCounts>, expected_total: Option<u64>) -> BatchRequestCounts {
    let base = match counts {
        Some(c) => c,
        None => BatchRequestCounts {
            total: match expected_total {
                Some(t) => t,
                None => 0,
            },
            completed: 0,
            failed: 0,
        },
    };
    match expected_total {
        Some(t) => BatchRequestCounts { total: t, ..base },
        None => base,
    }
}

pub open spec fn min_u64(a: u64, b: u64) -> u64 {
    if a <= b {
        a
    } else {
        b
    }
}

/// Step two, for a batch that has ended: it accounts for every line. A
/// completed batch keeps its failures (at most the total) and counts the
/// other lines completed; a failed batch keeps its completions (at most the
/// total) and counts the other lines failed.
pub open spec fn counts_settle(status: BatchStatus, n: BatchRequestCounts) -> BatchRequestCounts {
    match status {
        BatchStatus::Completed => {
            let f = min_u64(n.failed, n.total);
            BatchRequestCounts { total: n.total, completed: (n.total - f) as u64, failed: f }
        },
        BatchStatus::Failed => {
            let c = min_u64(n.completed, n.total);
            BatchRequestCounts { total: n.total, completed: c, failed: (n.total - c) as u64 }
        },
        _ => n,
    }
}

/// Step two, for a batch still running: over-accounted progress is cut back
/// by lowering the completed count; its progress is otherwise kept.
pub open spec fn counts_clamp_running(n: BatchRequestCounts) -> BatchRequestCounts {
    if n.total > 0 && sat_add_u64(n.completed, n.failed) > n.total {
        BatchRequestCounts { completed: sat_sub_u64(n.total, n.failed), ..n }
    } else {
        n
    }
}

pub open spec fn is_ended(status: BatchStatus) -> bool {
    status == BatchStatus::Completed || status == BatchStatus::Failed
}

pub open spec fn spec_normalize_counts(
    status: BatchStatus,
    counts: Option<BatchRequestCounts>,
    expected_total: Option<u64>,
) -> Option<BatchRequestCounts> {
    let seed = counts_seed(counts, expected_total);
    let n = if is_ended(status) {
        counts_settle(status, seed)
    } else {
        counts_clamp_running(seed)
    };
    if n.total == 0 {
        None
    } else {
        Some(n)
    }
}

/// Normalises the counters of one provider batch against the number of input
/// lines mapped to it, enforcing `completed + failed == total` for completed
/// and failed batches without rewriting the progress of running ones.
pub fn normalize_request_counts_for_batch_status(
    status: &BatchStatus,
    counts: &Option<BatchRequestCounts>,
    expected_total: Option<u64>,
) -> (r: Option<BatchRequestCounts>)
    ensures
        r == spec_normalize_counts(*status, *counts, expected_total),
{
    let mut normalized = match counts {
        Some(c) => *c,
        None => BatchRequestCounts {
            total: match expected_total {
                Some(t) => t,
                None => 0,
            },
            completed: 0,
            failed: 0,
        },
    };
    if let Some(t) = expected_total {
        normalized.total = t;
    }
    match status {
        BatchStatus::Completed => {
            let failed = if normalized.failed <= normalized.total {
                normalized.failed
            } else {
                normalized.total
            };
            normalized.failed = failed;
            normalized.completed = normalized.total - failed;
        },
        BatchStatus::Failed => {
            let completed = if normalized.completed <= normalized.total {
                normalized.completed
            } else {
                normalized.total
            };
            normalized.completed = completed;
            normalized.failed = normalized.total - completed;
        },
        _ => {
            let accounted = normalized.completed.saturating_add(normalized.failed);
            if normalized.total > 0 && accounted > normalized.total {
                normalized.completed = normalized.total.saturating_sub(normalized.failed);
            }
        },
    }
    if normalized.total == 0 {
        None
    } else {
        Some(normalized)
    }
}

/// Normalised counters never account more lines than the total: always for
/// a batch that has ended, and for a running batch unless its failed count
/// already exceeded the total or its counters overflow a total of
/// `u64::MAX`.
pub proof fn law_normalized_counts_within_total(
    status: BatchStatus,
    counts: Option<BatchRequestCounts>,
    expected_total: Option<u64>,
)
    requires
        !is_ended(status) ==> counts_seed(counts, expected_total).failed <= counts_seed(
            counts,
            expected_total,
        ).total,
        !is_ended(status) ==> !(counts_seed(counts, expected_total).total == u64::MAX
            && counts_seed(counts, expected_total).completed + counts_seed(
            counts,
            expected_total,
        ).failed > u64::MAX),
    ensures
        spec_normalize_counts(status, counts, expected_total) matches Some(n) ==> n.completed
            + n.failed <= n.total,
{
}

/// A completed or failed batch accounts for every line:
/// `completed + failed == total`.
pub proof fn law_terminal_counts_balanced(
    status: BatchStatus,
    counts: Option<BatchRequestCounts>,
    expected_total: Option<u64>,
)
    requires
        status == BatchStatus::Completed || status == BatchStatus::Failed,
    ensures
        spec_normalize_counts(status, counts, expected_total) matches Some(n) ==> n.completed
            + n.failed == n.total,
{
}

/// When the number of mapped input lines is known it is the total, and the
/// counters are dropped exactly when that number is zero.
pub proof fn law_expected_total_wins(
    status: BatchStatus,
    counts: Option<BatchRequestCounts>,
    expected_total: u64,
)
    ensures
        spec_normalize_counts(status, counts, Some(expected_total)) matches Some(n) ==> n.total
            == expected_total,
        spec_normalize_counts(status, counts, Some(expected_total)) is None <==> expected_total
            == 0,
{
}

/// Surface counters that fit in an `i64` come back unchanged from the
/// persisted form; persisted counters that are not negative come back
/// unchanged from the surface form.
pub proof fn law_request_counts_round_trip(c: BatchRequestCounts, v: VirtualBatchRequestCounts)
    ensures
        c.total <= i64::MAX && c.completed <= i64::MAX && c.failed <= i64::MAX ==> counts_to_batch(
            counts_to_virtual(c),
        ) == c,
        v.total >= 0 && v.completed >= 0 && v.failed >= 0 ==> counts_to_virtual(counts_to_batch(v))
            == v,
{
}

/// A virtual batch counts as completed only when every one of its provider
/// batches has completed.
pub proof fn law_completed_needs_every_batch_completed(s: Seq<VirtualBatchStatus>)
    ensures
        spec_aggregate_status(s) == VirtualBatchStatus::Completed <==> (forall|i: int|
            0 <= i < s.len() ==> #[trigger] s[i] == VirtualBatchStatus::Completed),
{
    if spec_aggregate_status(s) == VirtualBatchStatus::Completed {
        assert(!has_status(s, VirtualBatchStatus::Cancelling));
    }
}

/// A virtual batch with a provider batch still finalizing, and none failed,
/// cancelling, cancelled or expired, is finalizing.
pub proof fn law_finalizing_wins_without_stop(s: Seq<VirtualBatchStatus>, k: int)
    requires
        0 <= k < s.len(),
        s[k] == VirtualBatchStatus::Finalizing,
        forall|i: int|
            0 <= i < s.len() ==> #[trigger] s[i] != VirtualBatchStatus::Failed && s[i]
                != VirtualBatchStatus::Cancelling && s[i] != VirtualBatchStatus::Cancelled && s[i]
                != VirtualBatchStatus::Expired,
    ensures
        spec_aggregate_status(s) == VirtualBatchStatus::Finalizing,
{
    assert(!all_status(s, VirtualBatchStatus::Completed));
    assert(has_status(s, VirtualBatchStatus::Finalizing));
}

} // verus!
