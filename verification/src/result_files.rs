//! When a virtual batch gets its output and error files, and what they are
//! made of: the provider files of its provider batches, and for the output
//! file a line map in the order of the input file.

use vstd::prelude::*;
use crate::batch_rules::{is_terminal_virtual_status, spec_is_terminal_virtual};
use crate::batch_types::{BatchObject, VirtualBatchStatus};
use crate::errors::{LLMurError, bad_request};
use crate::ids::{DeploymentId, VirtualFileId};
use crate::records::{ProviderBatch, ProviderFileReference, VirtualFileLineMapEntry};
use crate::request_totals::entry_key;
use crate::text::{seq_eq, to_owned};

verus! {

/// What to do about the output file of a virtual batch.
#[derive(Clone, Debug)]
pub enum OutputFilePlan {
    /// Answer with this reference and create nothing.
    Keep(Option<VirtualFileId>),
    /// Create an output file from these provider files and this line map.
    Create { provider_files: Vec<ProviderFileReference>, line_map: Vec<VirtualFileLineMapEntry> },
}

/// What to do about the error file of a virtual batch.
#[derive(Clone, Debug)]
pub enum ErrorFilePlan {
    /// Answer with this reference and create nothing.
    Keep(Option<VirtualFileId>),
    /// Create an error file from these provider files.
    Create { provider_files: Vec<ProviderFileReference> },
}

pub open spec fn batch_key(x: (ProviderBatch, BatchObject)) -> (Seq<char>, DeploymentId) {
    (x.0.provider@, x.0.deployment_id)
}

/// Every provider batch reported an output file, and no two share a
/// (provider, deployment).
pub open spec fn outputs_complete(r: Seq<(ProviderBatch, BatchObject)>) -> bool {
    &&& forall|i: int| 0 <= i < r.len() ==> (#[trigger] r[i]).1.output_file_id is Some
    &&& forall|i: int, j: int|
        0 <= i < j < r.len() ==> batch_key(#[trigger] r[i]) != batch_key(#[trigger] r[j])
}

/// The output file that the provider batch with key `k` reported.
pub open spec fn output_for(r: Seq<(ProviderBatch, BatchObject)>, k: (Seq<char>, DeploymentId)) -> Option<
    Seq<char>,
>
    decreases r.len(),
{
    if r.len() == 0 {
        None
    } else if batch_key(r[0]) == k {
        match r[0].1.output_file_id {
            Some(id) => Some(id@),
            None => None,
        }
    } else {
        output_for(r.drop_first(), k)
    }
}

/// `o` is input line-map entry `e` moved to the output file `id`.
pub open spec fn entry_moved(e: VirtualFileLineMapEntry, o: VirtualFileLineMapEntry, id: Seq<char>) -> bool {
    &&& o.line_index == e.line_index
    &&& o.provider@ == e.provider@
    &&& o.deployment_id == e.deployment_id
    &&& o.provider_file_id@ == id
    &&& o.provider_line_index == e.provider_line_index
}

/// `refs` names the output file of each provider batch, in order.
pub open spec fn output_refs(refs: Seq<ProviderFileReference>, r: Seq<(ProviderBatch, BatchObject)>) -> bool {
    &&& refs.len() == r.len()
    &&& forall|i: int|
        0 <= i < r.len() ==> (#[trigger] refs[i]).provider@ == r[i].0.provider@
            && refs[i].deployment_id == r[i].0.deployment_id && Some(refs[i].provider_file_id@)
            == match r[i].1.output_file_id {
            Some(id) => Some(id@),
            None => None::<Seq<char>>,
        }
}

pub open spec fn missing_output_message() -> Seq<char> {
    "Missing provider output file for virtual output mapping."@
}

pub open spec fn no_line_map_message() -> Seq<char> {
    "Input file does not have a line map."@
}

fn find_output(
    refreshed: &[(ProviderBatch, BatchObject)],
    provider: &String,
    deployment_id: DeploymentId,
) -> (r: Option<String>)
    ensures
        match r {
            Some(s) => output_for(refreshed@, (provider@, deployment_id)) == Some(s@),
            None => output_for(refreshed@, (provider@, deployment_id)) is None,
        },
{
    let mut i: usize = 0;
    assert(refreshed@.subrange(0, refreshed@.len() as int) =~= refreshed@);
    while i < refreshed.len()
        invariant
            i <= refreshed@.len(),
            output_for(refreshed@, (provider@, deployment_id)) == output_for(
                refreshed@.subrange(i as int, refreshed@.len() as int),
                (provider@, deployment_id),
            ),
        decreases refreshed@.len() - i,
    {
        let ghost rest = refreshed@.subrange(i as int, refreshed@.len() as int);
        assert(rest[0] == refreshed@[i as int]);
        assert(rest.drop_first() =~= refreshed@.subrange(i + 1, refreshed@.len() as int));
        let (pb, bo) = &refreshed[i];
        if pb.deployment_id == deployment_id && seq_eq(pb.provider.as_str(), provider.as_str()) {
            return match &bo.output_file_id {
                Some(id) => Some(id.clone()),
                None => None,
            };
        }
        i = i + 1;
    }
    None
}

fn outputs_are_complete(refreshed: &[(ProviderBatch, BatchObject)]) -> (r: bool)
    ensures
        r == outputs_complete(refreshed@),
{
    let mut i: usize = 0;
    while i < refreshed.len()
        invariant
            i <= refreshed@.len(),
            forall|a: int| 0 <= a < i ==> (#[trigger] refreshed@[a]).1.output_file_id is Some,
            forall|a: int, b: int|
                0 <= a < b < i ==> batch_key(#[trigger] refreshed@[a]) != batch_key(
                    #[trigger] refreshed@[b],
                ),
        decreases refreshed@.len() - i,
    {
        if refreshed[i].1.output_file_id.is_none() {
            return false;
        }
        let mut j: usize = 0;
        while j < i
            invariant
                i < refreshed@.len(),
                j <= i,
                forall|a: int| 0 <= a < j ==> batch_key(#[trigger] refreshed@[a]) != batch_key(
                    refreshed@[i as int],
                ),
            decreases i - j,
        {
            if refreshed[j].0.deployment_id == refreshed[i].0.deployment_id && seq_eq(
                refreshed[j].0.provider.as_str(),
                refreshed[i].0.provider.as_str(),
            ) {
                assert(batch_key(refreshed@[j as int]) == batch_key(refreshed@[i as int]));
                return false;
            }
            j = j + 1;
        }
        i = i + 1;
    }
    true
}

/// What to do about the output file of a virtual batch whose provider
/// batches were just refreshed: a terminal batch keeps its persisted output
/// file; a non-terminal batch has none; otherwise, once every provider
/// batch reported its own output file, an output file is made of them,
/// each input line mapped to the output of its provider batch.
pub fn plan_virtual_output_file(
    status: &VirtualBatchStatus,
    persisted_output_file_id: Option<VirtualFileId>,
    refreshed: &[(ProviderBatch, BatchObject)],
    input_line_map: &Option<Vec<VirtualFileLineMapEntry>>,
) -> (r: Result<OutputFilePlan, LLMurError>)
    ensures
        spec_is_terminal_virtual(*status) && persisted_output_file_id is Some ==> r == Ok::<
            OutputFilePlan,
            LLMurError,
        >(OutputFilePlan::Keep(persisted_output_file_id)),
        !spec_is_terminal_virtual(*status) ==> r == Ok::<OutputFilePlan, LLMurError>(
            OutputFilePlan::Keep(None),
        ),
        spec_is_terminal_virtual(*status) && persisted_output_file_id is None && !outputs_complete(
            refreshed@,
        ) ==> r == Ok::<OutputFilePlan, LLMurError>(OutputFilePlan::Keep(None)),
        spec_is_terminal_virtual(*status) && persisted_output_file_id is None && outputs_complete(
            refreshed@,
        ) ==> match *input_line_map {
            None => r matches Err(e) && e is BadRequest && bad_request(e) == no_line_map_message(),
            Some(m) => if forall|x: int|
                0 <= x < m@.len() ==> #[trigger] output_for(refreshed@, entry_key(m@[x])) is Some {
                r matches Ok(OutputFilePlan::Create { provider_files, line_map }) && output_refs(
                    provider_files@,
                    refreshed@,
                ) && line_map@.len() == m@.len() && forall|x: int|
                    0 <= x < m@.len() ==> entry_moved(
                        #[trigger] m@[x],
                        line_map@[x],
                        output_for(refreshed@, entry_key(m@[x])).unwrap(),
                    )
            } else {
                r matches Err(e) && e is BadRequest && bad_request(e) == missing_output_message()
            },
        },
{
    if is_terminal_virtual_status(status) {
        if persisted_output_file_id.is_some() {
            return Ok(OutputFilePlan::Keep(persisted_output_file_id));
        }
    } else {
        return Ok(OutputFilePlan::Keep(None));
    }
    if !outputs_are_complete(refreshed) {
        return Ok(OutputFilePlan::Keep(None));
    }
    let input_map = match input_line_map {
        Some(m) => m,
        None => {
            return Err(LLMurError::BadRequest(to_owned("Input file does not have a line map.")));
        },
    };
    let mut line_map: Vec<VirtualFileLineMapEntry> = Vec::new();
    let mut x: usize = 0;
    while x < input_map.len()
        invariant
            spec_is_terminal_virtual(*status),
            persisted_output_file_id is None,
            outputs_complete(refreshed@),
            *input_line_map == Some(*input_map),
            x <= input_map@.len(),
            line_map@.len() == x,
            forall|y: int|
                0 <= y < x ==> output_for(refreshed@, entry_key(#[trigger] input_map@[y])) is Some,
            forall|y: int|
                0 <= y < x ==> entry_moved(
                    #[trigger] input_map@[y],
                    line_map@[y],
                    output_for(refreshed@, entry_key(input_map@[y])).unwrap(),
                ),
        decreases input_map@.len() - x,
    {
        let e = &input_map[x];
        match find_output(refreshed, &e.provider, e.deployment_id) {
            Some(id) => {
                line_map.push(
                    VirtualFileLineMapEntry {
                        line_index: e.line_index,
                        provider: e.provider.clone(),
                        deployment_id: e.deployment_id,
                        provider_file_id: id,
                        provider_line_index: e.provider_line_index,
                    },
                );
            },
            None => {
                proof {
                    reveal_strlit("Missing provider output file for virtual output mapping.");
                }
                return Err(
                    LLMurError::BadRequest(
                        to_owned("Missing provider output file for virtual output mapping."),
                    ),
                );
            },
        }
        x = x + 1;
    }
    let mut provider_files: Vec<ProviderFileReference> = Vec::new();
    let mut i: usize = 0;
    while i < refreshed.len()
        invariant
            i <= refreshed@.len(),
            outputs_complete(refreshed@),
            provider_files@.len() == i,
            forall|a: int|
                0 <= a < i ==> (#[trigger] provider_files@[a]).provider@ == refreshed@[a].0.provider@
                    && provider_files@[a].deployment_id == refreshed@[a].0.deployment_id && Some(
                    provider_files@[a].provider_file_id@,
                ) == match refreshed@[a].1.output_file_id {
                    Some(id) => Some(id@),
                    None => None::<Seq<char>>,
                },
        decreases refreshed@.len() - i,
    {
        let (pb, bo) = &refreshed[i];
        assert(refreshed@[i as int].1.output_file_id is Some);
        let id = match &bo.output_file_id {
            Some(id) => id.clone(),
            None => String::new(),
        };
        provider_files.push(
            ProviderFileReference {
                provider: pb.provider.clone(),
                deployment_id: pb.deployment_id,
                provider_file_id: id,
            },
        );
        i = i + 1;
    }
    Ok(OutputFilePlan::Create { provider_files, line_map })
}

/// `refs` names, in order, the error file of each provider batch that
/// reported one.
pub open spec fn error_refs(r: Seq<(ProviderBatch, BatchObject)>) -> Seq<
    (Seq<char>, DeploymentId, Seq<char>),
>
    decreases r.len(),
{
    if r.len() == 0 {
        Seq::empty()
    } else {
        let rest = error_refs(r.drop_last());
        let last = r.last();
        match last.1.error_file_id {
            Some(id) => rest.push((last.0.provider@, last.0.deployment_id, id@)),
            None => rest,
        }
    }
}

pub open spec fn ref_view(f: ProviderFileReference) -> (Seq<char>, DeploymentId, Seq<char>) {
    (f.provider@, f.deployment_id, f.provider_file_id@)
}

/// What to do about the error file of a virtual batch whose provider
/// batches were just refreshed: only a terminal batch with evidence of
/// failures (`should_materialize`) has one; a persisted error file is kept;
/// otherwise one is made of the error files the provider batches reported,
/// if any did.
pub fn plan_virtual_error_file(
    status: &VirtualBatchStatus,
    should_materialize: bool,
    persisted_error_file_id: Option<VirtualFileId>,
    refreshed: &[(ProviderBatch, BatchObject)],
) -> (r: ErrorFilePlan)
    ensures
        !spec_is_terminal_virtual(*status) || !should_materialize ==> r == ErrorFilePlan::Keep(None),
        spec_is_terminal_virtual(*status) && should_materialize && persisted_error_file_id is Some
            ==> r == ErrorFilePlan::Keep(persisted_error_file_id),
        spec_is_terminal_virtual(*status) && should_materialize && persisted_error_file_id is None
            ==> if error_refs(refreshed@).len() == 0 {
            r == ErrorFilePlan::Keep(None)
        } else {
            r matches ErrorFilePlan::Create { provider_files } && provider_files@.map_values(
                |f: ProviderFileReference| ref_view(f),
            ) == error_refs(refreshed@)
        },
{
    if !is_terminal_virtual_status(status) || !should_materialize {
        return ErrorFilePlan::Keep(None);
    }
    if persisted_error_file_id.is_some() {
        return ErrorFilePlan::Keep(persisted_error_file_id);
    }
    let mut provider_files: Vec<ProviderFileReference> = Vec::new();
    let mut i: usize = 0;
    while i < refreshed.len()
        invariant
            i <= refreshed@.len(),
            provider_files@.map_values(|f: ProviderFileReference| ref_view(f)) == error_refs(
                refreshed@.subrange(0, i as int),
            ),
        decreases refreshed@.len() - i,
    {
        let ghost pre = refreshed@.subrange(0, i as int);
        assert(refreshed@.subrange(0, i + 1).drop_last() =~= pre);
        assert(refreshed@.subrange(0, i + 1).last() == refreshed@[i as int]);
        let (pb, bo) = &refreshed[i];
        if let Some(id) = &bo.error_file_id {
            let ghost before = provider_files@;
            provider_files.push(
                ProviderFileReference {
                    provider: pb.provider.clone(),
                    deployment_id: pb.deployment_id,
                    provider_file_id: id.clone(),
                },
            );
            assert(provider_files@.map_values(|f: ProviderFileReference| ref_view(f)) =~= before.map_values(
                |f: ProviderFileReference| ref_view(f),
            ).push((pb.provider@, pb.deployment_id, id@)));
        }
        i = i + 1;
    }
    assert(refreshed@.subrange(0, refreshed@.len() as int) =~= refreshed@);
    if provider_files.len() == 0 {
        return ErrorFilePlan::Keep(None);
    }
    ErrorFilePlan::Create { provider_files }
}

/// `(bytes as i64)` added up with `i64::saturating_add`, then at least 0:
/// the size recorded for a file made of provider files whose sizes are
/// known (`None` where the metadata could not be fetched).
pub open spec fn spec_total_bytes(sizes: Seq<Option<u64>>) -> i64
    decreases sizes.len(),
{
    if sizes.len() == 0 {
        0
    } else {
        let rest = spec_total_bytes(sizes.drop_last());
        match sizes.last() {
            Some(b) => crate::batch_rules::sat_add_i64(rest, b as i64),
            None => rest,
        }
    }
}

/// The size of a file made of provider files, from their sizes.
pub fn total_file_bytes(sizes: &[Option<u64>]) -> (r: i64)
    ensures
        r == if spec_total_bytes(sizes@) < 0 {
            0
        } else {
            spec_total_bytes(sizes@)
        },
{
    let mut total: i64 = 0;
    let mut i: usize = 0;
    while i < sizes.len()
        invariant
            i <= sizes@.len(),
            total == spec_total_bytes(sizes@.subrange(0, i as int)),
        decreases sizes@.len() - i,
    {
        assert(sizes@.subrange(0, i + 1).drop_last() =~= sizes@.subrange(0, i as int));
        assert(sizes@.subrange(0, i + 1).last() == sizes@[i as int]);
        if let Some(b) = sizes[i] {
            total = crate::batch_rules::saturating_add_i64(total, b as i64);
        }
        i = i + 1;
    }
    assert(sizes@.subrange(0, sizes@.len() as int) =~= sizes@);
    if total < 0 {
        0
    } else {
        total
    }
}

} // verus!
