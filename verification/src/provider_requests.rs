//! The HTTP requests the gateway sends to a provider for batches and files:
//! method, URL and credential header, per provider.
//!
//! The Azure OpenAI URLs carry the connection's API version as a query
//! parameter; its wire text is given by the caller.

use vstd::prelude::*;
use crate::providers::{ProviderConnection, spec_azure_api_base, azure_api_base, gemini_api_version};
use crate::text::{concat, to_owned, trim_end_char, trim_end_char_str};

verus! {

/// An HTTP method.
#[derive(Clone, Copy, Debug, PartialEq, Eq, Structural)]
pub enum HttpMethod {
    Get,
    Post,
    Delete,
}

/// A batch or file operation on a provider.
#[derive(Clone, Copy, Debug, PartialEq, Eq, Structural)]
pub enum ProviderOperation {
    CreateBatch,
    RetrieveBatch,
    CancelBatch,
    FileMetadata,
    FileContent,
    DeleteFile,
    /// For Gemini, the start of a resumable upload.
    UploadFile,
}

/// A request to a provider.
#[derive(Clone, Debug)]
pub struct ProviderRequest {
    pub method: HttpMethod,
    pub url: String,
    pub credential_header: String,
    pub credential_value: String,
}

pub open spec fn spec_method(op: ProviderOperation) -> HttpMethod {
    match op {
        ProviderOperation::CreateBatch => HttpMethod::Post,
        ProviderOperation::RetrieveBatch => HttpMethod::Get,
        ProviderOperation::CancelBatch => HttpMethod::Post,
        ProviderOperation::FileMetadata => HttpMethod::Get,
        ProviderOperation::FileContent => HttpMethod::Get,
        ProviderOperation::DeleteFile => HttpMethod::Delete,
        ProviderOperation::UploadFile => HttpMethod::Post,
    }
}

/// The URL of operation `op` on object `id` (a batch or file id, unused by
/// creation and upload); `v` is the Azure API version text.
pub open spec fn spec_url(c: ProviderConnection, op: ProviderOperation, id: Seq<char>, v: Seq<char>) -> Seq<
    char,
> {
    match c {
        ProviderConnection::OpenAi { api_endpoint, .. } => {
            let b = trim_end_char(api_endpoint@, '/');
            match op {
                ProviderOperation::CreateBatch => b + "/v1/batches"@,
                ProviderOperation::RetrieveBatch => b + "/v1/batches/"@ + id,
                ProviderOperation::CancelBatch => b + "/v1/batches/"@ + id + "/cancel"@,
                ProviderOperation::FileMetadata => b + "/v1/files/"@ + id,
                ProviderOperation::FileContent => b + "/v1/files/"@ + id + "/content"@,
                ProviderOperation::DeleteFile => b + "/v1/files/"@ + id,
                ProviderOperation::UploadFile => b + "/v1/files"@,
            }
        },
        ProviderConnection::Azure { api_endpoint, .. } => {
            let b = spec_azure_api_base(api_endpoint@);
            let q = "?api-version="@ + v;
            match op {
                ProviderOperation::CreateBatch => b + "/batches"@ + q,
                ProviderOperation::RetrieveBatch => b + "/batches/"@ + id + q,
                ProviderOperation::CancelBatch => b + "/batches/"@ + id + "/cancel"@ + q,
                ProviderOperation::FileMetadata => b + "/files/"@ + id + q,
                ProviderOperation::FileContent => b + "/files/"@ + id + "/content"@ + q,
                ProviderOperation::DeleteFile => b + "/files/"@ + id + q,
                ProviderOperation::UploadFile => b + "/files"@ + q,
            }
        },
        ProviderConnection::Gemini { api_endpoint, model, .. } => {
            let b = trim_end_char(api_endpoint@, '/');
            let g = b + "/v1beta"@;
            match op {
                ProviderOperation::CreateBatch => g + "/models/"@ + model@ + ":batchGenerateContent"@,
                ProviderOperation::RetrieveBatch => g + "/"@ + id,
                ProviderOperation::CancelBatch => g + "/"@ + id + ":cancel"@,
                ProviderOperation::FileMetadata => g + "/"@ + id,
                ProviderOperation::FileContent => b + "/download/v1beta/"@ + id
                    + ":download?alt=media"@,
                ProviderOperation::DeleteFile => g + "/"@ + id,
                ProviderOperation::UploadFile => b + "/upload/v1beta/files"@,
            }
        },
    }
}

/// The credential header of a connection: a bearer token for OpenAI, an
/// `api-key` for Azure, an `x-goog-api-key` for Gemini.
pub open spec fn spec_credential(c: ProviderConnection) -> (Seq<char>, Seq<char>) {
    match c {
        ProviderConnection::OpenAi { api_key, .. } => ("Authorization"@, "Bearer "@ + api_key@),
        ProviderConnection::Azure { api_key, .. } => ("api-key"@, api_key@),
        ProviderConnection::Gemini { api_key, .. } => ("x-goog-api-key"@, api_key@),
    }
}

fn cat3(a: &str, b: &str, c: &str) -> (r: String)
    ensures
        r@ == a@ + b@ + c@,
{
    let mut r = to_owned(a);
    r.append(b);
    r.append(c);
    r
}

fn cat4(a: &str, b: &str, c: &str, d: &str) -> (r: String)
    ensures
        r@ == a@ + b@ + c@ + d@,
{
    let mut r = to_owned(a);
    r.append(b);
    r.append(c);
    r.append(d);
    r
}

fn cat5(a: &str, b: &str, c: &str, d: &str, e: &str) -> (r: String)
    ensures
        r@ == a@ + b@ + c@ + d@ + e@,
{
    let mut r = to_owned(a);
    r.append(b);
    r.append(c);
    r.append(d);
    r.append(e);
    r
}

fn request_url(c: &ProviderConnection, op: ProviderOperation, id: &str, azure_api_version: &str) -> (r:
    String)
    ensures
        r@ == spec_url(*c, op, id@, azure_api_version@),
{
    proof {
        reveal_strlit("/v1/batches");
        reveal_strlit("/v1/batches/");
        reveal_strlit("/cancel");
        reveal_strlit("/v1/files/");
        reveal_strlit("/content");
        reveal_strlit("/v1/files");
        reveal_strlit("?api-version=");
        reveal_strlit("/batches");
        reveal_strlit("/batches/");
        reveal_strlit("/files/");
        reveal_strlit("/files");
        reveal_strlit("/v1beta");
        reveal_strlit("/models/");
        reveal_strlit(":batchGenerateContent");
        reveal_strlit("/");
        reveal_strlit(":cancel");
        reveal_strlit("/download/v1beta/");
        reveal_strlit(":download?alt=media");
        reveal_strlit("/upload/v1beta/files");
    }
    match c {
        ProviderConnection::OpenAi { api_endpoint, .. } => {
            let b = trim_end_char_str(api_endpoint.as_str(), '/');
            match op {
                ProviderOperation::CreateBatch => concat(b, "/v1/batches"),
                ProviderOperation::RetrieveBatch => cat3(b, "/v1/batches/", id),
                ProviderOperation::CancelBatch => cat4(b, "/v1/batches/", id, "/cancel"),
                ProviderOperation::FileMetadata => cat3(b, "/v1/files/", id),
                ProviderOperation::FileContent => cat4(b, "/v1/files/", id, "/content"),
                ProviderOperation::DeleteFile => cat3(b, "/v1/files/", id),
                ProviderOperation::UploadFile => concat(b, "/v1/files"),
            }
        },
        ProviderConnection::Azure { api_endpoint, .. } => {
            let base = azure_api_base(api_endpoint.as_str());
            let b = base.as_str();
            let q = concat("?api-version=", azure_api_version);
            let r = match op {
                ProviderOperation::CreateBatch => cat3(b, "/batches", q.as_str()),
                ProviderOperation::RetrieveBatch => cat4(b, "/batches/", id, q.as_str()),
                ProviderOperation::CancelBatch => cat5(b, "/batches/", id, "/cancel", q.as_str()),
                ProviderOperation::FileMetadata => cat4(b, "/files/", id, q.as_str()),
                ProviderOperation::FileContent => cat5(b, "/files/", id, "/content", q.as_str()),
                ProviderOperation::DeleteFile => cat4(b, "/files/", id, q.as_str()),
                ProviderOperation::UploadFile => cat3(b, "/files", q.as_str()),
            };
            assert(r@ =~= spec_url(*c, op, id@, azure_api_version@));
            r
        },
        ProviderConnection::Gemini { api_endpoint, api_version, model, .. } => {
            let b = trim_end_char_str(api_endpoint.as_str(), '/');
            let version = gemini_api_version(api_version);
            let g = cat3(b, "/", version);
            proof {
                reveal_strlit("v1beta");
                assert(g@ =~= b@ + "/v1beta"@);
            }
            let r = match op {
                ProviderOperation::CreateBatch => cat4(
                    g.as_str(),
                    "/models/",
                    model.as_str(),
                    ":batchGenerateContent",
                ),
                ProviderOperation::RetrieveBatch => cat3(g.as_str(), "/", id),
                ProviderOperation::CancelBatch => cat4(g.as_str(), "/", id, ":cancel"),
                ProviderOperation::FileMetadata => cat3(g.as_str(), "/", id),
                ProviderOperation::FileContent => cat4(b, "/download/v1beta/", id, ":download?alt=media"),
                ProviderOperation::DeleteFile => cat3(g.as_str(), "/", id),
                ProviderOperation::UploadFile => concat(b, "/upload/v1beta/files"),
            };
            assert(r@ =~= spec_url(*c, op, id@, azure_api_version@));
            r
        },
    }
}

/// The request for operation `op` on object `id` over connection `c`.
pub fn provider_request(
    c: &ProviderConnection,
    op: ProviderOperation,
    id: &str,
    azure_api_version: &str,
) -> (r: ProviderRequest)
    ensures
        r.method == spec_method(op),
        r.url@ == spec_url(*c, op, id@, azure_api_version@),
        (r.credential_header@, r.credential_value@) == spec_credential(*c),
{
    let method = match op {
        ProviderOperation::CreateBatch => HttpMethod::Post,
        ProviderOperation::RetrieveBatch => HttpMethod::Get,
        ProviderOperation::CancelBatch => HttpMethod::Post,
        ProviderOperation::FileMetadata => HttpMethod::Get,
        ProviderOperation::FileContent => HttpMethod::Get,
        ProviderOperation::DeleteFile => HttpMethod::Delete,
        ProviderOperation::UploadFile => HttpMethod::Post,
    };
    let url = request_url(c, op, id, azure_api_version);
    let (credential_header, credential_value) = match c {
        ProviderConnection::OpenAi { api_key, .. } => (
            to_owned("Authorization"),
            concat("Bearer ", api_key.as_str()),
        ),
        ProviderConnection::Azure { api_key, .. } => (to_owned("api-key"), api_key.clone()),
        ProviderConnection::Gemini { api_key, .. } => (to_owned("x-goog-api-key"), api_key.clone()),
    };
    ProviderRequest { method, url, credential_header, credential_value }
}

/// The content URL of a file is its metadata URL with `/content` added to
/// the path (before Azure's API-version query), so the two always differ;
/// for Gemini the content is downloaded from a URL of its own, which also
/// differs from the metadata URL.
pub proof fn law_file_content_url_extends_metadata_url(
    c: ProviderConnection,
    id: Seq<char>,
    v: Seq<char>,
)
    ensures
        ({
            let meta = spec_url(c, ProviderOperation::FileMetadata, id, v);
            let content = spec_url(c, ProviderOperation::FileContent, id, v);
            &&& c is OpenAi ==> content == meta + "/content"@
            &&& c is Azure ==> {
                let q = "?api-version="@ + v;
                let path = meta.subrange(0, meta.len() - q.len());
                &&& meta == path + q
                &&& content == path + "/content"@ + q
            }
            &&& content != meta
        }),
{
    reveal_strlit("/content");
    reveal_strlit("?api-version=");
    reveal_strlit("/v1/files/");
    reveal_strlit("/files/");
    reveal_strlit("/v1beta");
    reveal_strlit("/");
    reveal_strlit("/download/v1beta/");
    reveal_strlit(":download?alt=media");
    let meta = spec_url(c, ProviderOperation::FileMetadata, id, v);
    let content = spec_url(c, ProviderOperation::FileContent, id, v);
    match c {
        ProviderConnection::OpenAi { .. } => {
            assert(content =~= meta + "/content"@);
            assert(content.len() != meta.len());
        },
        ProviderConnection::Azure { api_endpoint, .. } => {
            let b = spec_azure_api_base(api_endpoint@);
            let q = "?api-version="@ + v;
            let path = b + "/files/"@ + id;
            assert(meta =~= path + q);
            assert(meta.subrange(0, meta.len() - q.len()) =~= path);
            assert(content =~= path + "/content"@ + q);
            assert(content.len() != meta.len());
        },
        ProviderConnection::Gemini { .. } => {
            assert(content.len() != meta.len());
        },
    }
}

} // verus!
