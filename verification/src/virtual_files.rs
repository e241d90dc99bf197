//! Virtual files on the OpenAI files surface: how one is shown, whose it
//! is, and how its content is put together from its provider files.

use vstd::prelude::*;
use crate::errors::{LLMurError, bad_request};
use crate::batch_types::VirtualBatchEndpoint;
use crate::ids::{DeploymentId, VirtualFileId, VirtualKeyId};
use crate::providers::ConnectionInfo;
use crate::records::{
    FileObject, FileObjectType, FilePurpose, FileStatus, ProviderFileReference, VirtualFile,
    VirtualFileKind,
};
use crate::text::{join_lines_terminated, split_lines, str_lines, to_owned, views};
use crate::uuid_text::{uuid_hyphenated, uuid_to_string};

verus! {

/// Whether a file listing asks for the virtual batch files.
pub fn is_virtual_list_request(purpose: &Option<FilePurpose>) -> (r: bool)
    ensures
        r == (*purpose == Some(FilePurpose::Batch) || *purpose == Some(FilePurpose::BatchOutput)),
{
    match purpose {
        Some(FilePurpose::Batch) | Some(FilePurpose::BatchOutput) => true,
        _ => false,
    }
}

/// The status a file of each kind is shown with.
pub open spec fn spec_file_status(kind: VirtualFileKind) -> FileStatus {
    match kind {
        VirtualFileKind::Input => FileStatus::Uploaded,
        VirtualFileKind::Output => FileStatus::Processed,
        VirtualFileKind::Error => FileStatus::Error,
    }
}

/// A time in seconds, negative values shown as 0.
pub open spec fn spec_seconds(t: i64) -> u64 {
    if t < 0 {
        0
    } else {
        t as u64
    }
}

fn seconds(t: i64) -> (r: u64)
    ensures
        r == spec_seconds(t),
{
    if t < 0 {
        0
    } else {
        t as u64
    }
}

/// The file object that shows a virtual file: its UUID as id, its size
/// (a negative size wraps, as an `as` cast does), times clamped at 0, and a
/// status by its kind.
pub fn virtual_file_to_file_object(file: &VirtualFile) -> (r: FileObject)
    ensures
        r.id@ == uuid_hyphenated(file.id.0),
        r.bytes == file.bytes as u64,
        r.created_at == spec_seconds(file.created_at),
        r.expires_at == match file.expires_at {
            Some(t) => Some(spec_seconds(t)),
            None => None::<u64>,
        },
        r.filename == file.filename,
        r.object == FileObjectType::File,
        r.purpose == file.purpose,
        r.status == spec_file_status(file.kind),
        r.status_details is None,
{
    let status = match file.kind {
        VirtualFileKind::Input => FileStatus::Uploaded,
        VirtualFileKind::Output => FileStatus::Processed,
        VirtualFileKind::Error => FileStatus::Error,
    };
    FileObject {
        id: uuid_to_string(file.id.0),
        bytes: file.bytes as u64,
        created_at: seconds(file.created_at),
        expires_at: match file.expires_at {
            Some(t) => Some(seconds(t)),
            None => None,
        },
        filename: file.filename.clone(),
        object: FileObjectType::File,
        purpose: file.purpose,
        status,
        status_details: None,
    }
}

/// A looked-up virtual file, kept only if it belongs to the caller's
/// virtual key.
pub fn owned_virtual_file(file: Option<VirtualFile>, virtual_key_id: VirtualKeyId) -> (r: Option<
    VirtualFile,
>)
    ensures
        r == match file {
            Some(f) => if f.virtual_key_id == virtual_key_id {
                Some(f)
            } else {
                None
            },
            None => None,
        },
{
    match file {
        Some(f) => if f.virtual_key_id == virtual_key_id {
            Some(f)
        } else {
            None
        },
        None => None,
    }
}

/// The provider files of a virtual file whose content is asked for.
pub fn content_provider_files(file: &VirtualFile) -> (r: Result<&Vec<ProviderFileReference>, LLMurError>)
    ensures
        match file.provider_files {
            Some(v) => r == Ok::<&Vec<ProviderFileReference>, LLMurError>(&v),
            None => r matches Err(e) && e is BadRequest && bad_request(e)
                == "Virtual file does not have provider file references."@,
        },
{
    match &file.provider_files {
        Some(v) => Ok(v),
        None => {
            proof {
                reveal_strlit("Virtual file does not have provider file references.");
            }
            Err(LLMurError::BadRequest(to_owned("Virtual file does not have provider file references.")))
        },
    }
}

/// The provider file a provider batch of deployment `d` reads its input
/// from: the first of the input file's provider files for `d`.
pub open spec fn spec_provider_input_file(files: Option<Vec<ProviderFileReference>>, d: DeploymentId) -> Option<
    Seq<char>,
> {
    match files {
        None => None,
        Some(v) => first_for_deployment(v@, d),
    }
}

pub open spec fn first_for_deployment(v: Seq<ProviderFileReference>, d: DeploymentId) -> Option<Seq<char>>
    decreases v.len(),
{
    if v.len() == 0 {
        None
    } else if v[0].deployment_id == d {
        Some(v[0].provider_file_id@)
    } else {
        first_for_deployment(v.drop_first(), d)
    }
}

/// The input file id a provider batch of deployment `deployment_id`
/// reports: its provider file, or else the virtual input file's UUID.
pub fn provider_input_file_id(
    input_file: &VirtualFile,
    deployment_id: DeploymentId,
    virtual_input_file_id: VirtualFileId,
) -> (r: String)
    ensures
        r@ == match spec_provider_input_file(input_file.provider_files, deployment_id) {
            Some(s) => s,
            None => uuid_hyphenated(virtual_input_file_id.0),
        },
{
    if let Some(files) = &input_file.provider_files {
        let mut i: usize = 0;
        assert(files@.subrange(0, files@.len() as int) =~= files@);
        while i < files.len()
            invariant
                input_file.provider_files == Some(*files),
                i <= files@.len(),
                first_for_deployment(files@, deployment_id) == first_for_deployment(
                    files@.subrange(i as int, files@.len() as int),
                    deployment_id,
                ),
            decreases files@.len() - i,
        {
            let ghost rest = files@.subrange(i as int, files@.len() as int);
            assert(rest[0] == files@[i as int]);
            assert(rest.drop_first() =~= files@.subrange(i + 1, files@.len() as int));
            if files[i].deployment_id == deployment_id {
                return files[i].provider_file_id.clone();
            }
            i = i + 1;
        }
    }
    uuid_to_string(virtual_input_file_id.0)
}

/// The lines of each provider file, one after the other.
pub open spec fn all_lines(contents: Seq<Seq<char>>) -> Seq<Seq<char>>
    decreases contents.len(),
{
    if contents.len() == 0 {
        Seq::empty()
    } else {
        all_lines(contents.drop_last()) + str_lines(contents.last())
    }
}

/// The content of a virtual file without a line map: the lines of its
/// provider files in order, joined by `\n`, with a final `\n` unless empty.
pub fn concatenate_provider_contents(contents: &[String]) -> (r: String)
    ensures
        r@ == join_lines_terminated(all_lines(views(contents@))),
{
    let mut lines: Vec<String> = Vec::new();
    let mut i: usize = 0;
    while i < contents.len()
        invariant
            i <= contents@.len(),
            views(lines@) == all_lines(views(contents@).subrange(0, i as int)),
        decreases contents@.len() - i,
    {
        let ghost pre = views(contents@).subrange(0, i as int);
        assert(views(contents@).subrange(0, i + 1).drop_last() =~= pre);
        assert(views(contents@).subrange(0, i + 1).last() == contents@[i as int]@);
        let part = split_lines(contents[i].as_str());
        let ghost before = views(lines@);
        let mut k: usize = 0;
        while k < part.len()
            invariant
                k <= part@.len(),
                views(lines@) == before + views(part@).subrange(0, k as int),
            decreases part@.len() - k,
        {
            let ghost old_lines = lines@;
            lines.push(part[k].clone());
            assert(views(lines@) =~= views(old_lines).push(part@[k as int]@));
            assert(views(part@).subrange(0, k + 1) =~= views(part@).subrange(0, k as int).push(
                part@[k as int]@,
            ));
            assert(views(lines@) =~= before + views(part@).subrange(0, k + 1));
            k = k + 1;
        }
        assert(views(part@).subrange(0, part@.len() as int) =~= views(part@));
        i = i + 1;
    }
    assert(views(contents@).subrange(0, contents@.len() as int) =~= views(contents@));
    crate::text::join_lines_with_newline(lines.as_slice())
}

/// How the content of a provider file is treated before it is returned.
#[derive(Clone, Copy, Debug, PartialEq, Eq, Structural)]
pub enum ContentTreatment {
    /// Returned as fetched.
    AsIs,
    /// Batch output or error content: normalised to the OpenAI batch line
    /// shape, first converted from Gemini's own line shape when Gemini
    /// wrote it.
    Normalize { from_gemini: bool },
}

/// How provider content of a virtual file of kind `kind` is treated: only
/// output and error files of a batch with a known endpoint are normalised.
pub fn provider_content_treatment(
    kind: VirtualFileKind,
    batch_endpoint: Option<VirtualBatchEndpoint>,
    connection: &ConnectionInfo,
) -> (r: ContentTreatment)
    ensures
        r == if batch_endpoint is None || kind == VirtualFileKind::Input {
            ContentTreatment::AsIs
        } else {
            ContentTreatment::Normalize { from_gemini: *connection is GeminiApiKey }
        },
{
    if batch_endpoint.is_none() {
        return ContentTreatment::AsIs;
    }
    match kind {
        VirtualFileKind::Input => ContentTreatment::AsIs,
        _ => ContentTreatment::Normalize {
            from_gemini: match connection {
                ConnectionInfo::GeminiApiKey { .. } => true,
                _ => false,
            },
        },
    }
}

/// The counter that numbers the provider calls of one request in the
/// request log.
pub struct LogAttempts {
    next: i16,
}

impl LogAttempts {
    pub closed spec fn next(&self) -> i16 {
        self.next
    }

    /// A counter at 0.
    pub fn new() -> (r: Self)
        ensures
            r.next() == 0,
    {
        LogAttempts { next: 0 }
    }

    /// The number of the next call; the counter moves on, wrapping as an
    /// atomic `fetch_add` does.
    pub fn next_log_attempt(&mut self) -> (r: i16)
        ensures
            r == old(self).next(),
            final(self).next() == if old(self).next() == i16::MAX {
                i16::MIN
            } else {
                (old(self).next() + 1) as i16
            },
    {
        let r = self.next;
        self.next = if r == i16::MAX {
            i16::MIN
        } else {
            r + 1
        };
        r
    }
}

} // verus!
