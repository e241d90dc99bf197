//! The rules of the OpenAI files routes before any file is read: only batch
//! files are served, and an upload must carry a file with its name and a
//! purpose.

use vstd::prelude::*;
use crate::errors::{LLMurError, bad_request};
use crate::records::FilePurpose;
use crate::text::to_owned;
use crate::virtual_files::is_virtual_list_request;

verus! {

/// The answer to a files request that is not about a batch file.
pub open spec fn only_batch_message() -> Seq<char> {
    "Files API is only supported for batch purpose."@
}

fn only_batch() -> (r: LLMurError)
    ensures
        r is BadRequest && bad_request(r) == only_batch_message(),
{
    LLMurError::BadRequest(to_owned("Files API is only supported for batch purpose."))
}

/// An upload is accepted for the batch purpose only.
pub fn check_upload_purpose(purpose: FilePurpose) -> (r: Result<(), LLMurError>)
    ensures
        purpose == FilePurpose::Batch ==> r is Ok,
        purpose != FilePurpose::Batch ==> (r matches Err(e) && e is BadRequest && bad_request(e)
            == only_batch_message()),
{
    match purpose {
        FilePurpose::Batch => Ok(()),
        _ => Err(only_batch()),
    }
}

/// A listing is served for the batch and batch output purposes only.
pub fn check_list_purpose(purpose: &Option<FilePurpose>) -> (r: Result<(), LLMurError>)
    ensures
        (*purpose == Some(FilePurpose::Batch) || *purpose == Some(FilePurpose::BatchOutput)) ==> r
            is Ok,
        !(*purpose == Some(FilePurpose::Batch) || *purpose == Some(FilePurpose::BatchOutput)) ==> (
        r matches Err(e) && e is BadRequest && bad_request(e) == only_batch_message()),
{
    if is_virtual_list_request(purpose) {
        Ok(())
    } else {
        Err(only_batch())
    }
}

/// A file request is served for a virtual file of the caller only.
pub fn found_virtual_file<T>(file: Option<T>) -> (r: Result<T, LLMurError>)
    ensures
        match file {
            Some(f) => r == Ok::<T, LLMurError>(f),
            None => r matches Err(e) && e is BadRequest && bad_request(e) == only_batch_message(),
        },
{
    match file {
        Some(f) => Ok(f),
        None => Err(only_batch()),
    }
}

/// What an upload form carried: the file field with its name, if it had
/// one (`Some(None)` for a file field without a name), and the purpose
/// field's text.
pub struct UploadFields {
    pub file: Option<(Option<String>, Vec<u8>)>,
    pub purpose: Option<String>,
}

/// The parts of an upload, once its fields are all there.
pub struct UploadParts {
    pub filename: String,
    pub bytes: Vec<u8>,
    pub purpose_text: String,
}

/// An upload needs a file field with a name, and a purpose field; the
/// first missing one is reported.
pub fn upload_parts(fields: UploadFields) -> (r: Result<UploadParts, LLMurError>)
    ensures
        match (fields.file, fields.purpose) {
            (None, _) => r matches Err(e) && e is BadRequest && bad_request(e)
                == "File upload requires a file field"@,
            (Some((None, _)), _) => r matches Err(e) && e is BadRequest && bad_request(e)
                == "File upload requires a filename"@,
            (Some((Some(_), _)), None) => r matches Err(e) && e is BadRequest && bad_request(e)
                == "File upload requires a purpose field"@,
            (Some((Some(n), b)), Some(p)) => r matches Ok(u) && u.filename == n && u.bytes == b
                && u.purpose_text == p,
        },
{
    let (name, bytes) = match fields.file {
        None => {
            return Err(LLMurError::BadRequest(to_owned("File upload requires a file field")));
        },
        Some(f) => f,
    };
    let filename = match name {
        None => {
            return Err(LLMurError::BadRequest(to_owned("File upload requires a filename")));
        },
        Some(n) => n,
    };
    match fields.purpose {
        None => Err(LLMurError::BadRequest(to_owned("File upload requires a purpose field"))),
        Some(p) => Ok(UploadParts { filename, bytes, purpose_text: p }),
    }
}

} // verus!
