//! Upstream connections: which provider serves a deployment and how its API
//! base URL is formed.

use vstd::prelude::*;
use crate::errors::LLMurError;
use crate::text::{concat, ends_with, is_suffix, trim_end_char, trim_end_char_str, to_owned};

verus! {

/// API version of an Azure OpenAI connection.
#[derive(Clone, Copy, Debug, PartialEq, Eq, Structural)]
pub enum AzureOpenAiApiVersion {
    V1,
}

/// API version of a Gemini connection.
#[derive(Clone, Copy, Debug, PartialEq, Eq, Structural)]
pub enum GeminiApiVersion {
    V1BETA,
}

/// How a connection reaches its provider.
#[derive(Clone, Debug)]
pub enum ConnectionInfo {
    AzureOpenAiApiKey {
        api_key: String,
        api_endpoint: String,
        api_version: AzureOpenAiApiVersion,
        deployment_name: String,
    },
    OpenAiApiKey { api_key: String, api_endpoint: String, model: String },
    GeminiApiKey {
        api_key: String,
        api_endpoint: String,
        api_version: GeminiApiVersion,
        model: String,
    },
}

pub open spec fn spec_provider_name(c: ConnectionInfo) -> Seq<char> {
    match c {
        ConnectionInfo::AzureOpenAiApiKey { .. } => "azure/openai"@,
        ConnectionInfo::OpenAiApiKey { .. } => "openai/v1"@,
        ConnectionInfo::GeminiApiKey { .. } => "gemini"@,
    }
}

impl ConnectionInfo {
    /// The provider name under which records and metrics group a connection.
    pub fn get_provider_friendly_name(&self) -> (r: &'static str)
        ensures
            r@ == spec_provider_name(*self),
    {
        match self {
            ConnectionInfo::AzureOpenAiApiKey { .. } => "azure/openai",
            ConnectionInfo::OpenAiApiKey { .. } => "openai/v1",
            ConnectionInfo::GeminiApiKey { .. } => "gemini",
        }
    }
}

/// The provider a connection reaches, without its details.
#[derive(Clone, Copy, Debug, PartialEq, Eq, Structural)]
pub enum ConnectionKind {
    AzureOpenAi,
    OpenAi,
    Gemini,
}

pub open spec fn spec_connection_kind(c: ConnectionInfo) -> ConnectionKind {
    match c {
        ConnectionInfo::AzureOpenAiApiKey { .. } => ConnectionKind::AzureOpenAi,
        ConnectionInfo::OpenAiApiKey { .. } => ConnectionKind::OpenAi,
        ConnectionInfo::GeminiApiKey { .. } => ConnectionKind::Gemini,
    }
}

impl ConnectionInfo {
    /// The provider this connection reaches.
    pub fn kind(&self) -> (r: ConnectionKind)
        ensures
            r == spec_connection_kind(*self),
    {
        match self {
            ConnectionInfo::AzureOpenAiApiKey { .. } => ConnectionKind::AzureOpenAi,
            ConnectionInfo::OpenAiApiKey { .. } => ConnectionKind::OpenAi,
            ConnectionInfo::GeminiApiKey { .. } => ConnectionKind::Gemini,
        }
    }
}

/// The connection details a batch or file request needs.
#[derive(Clone, Debug)]
pub enum ProviderConnection {
    OpenAi { api_key: String, api_endpoint: String },
    Azure { api_key: String, api_endpoint: String, api_version: AzureOpenAiApiVersion },
    Gemini {
        api_key: String,
        api_endpoint: String,
        api_version: GeminiApiVersion,
        model: String,
    },
}

/// The connection details of a connection.
pub fn provider_connection(connection_info: &ConnectionInfo, _line_number: usize) -> (r: Result<
    ProviderConnection,
    LLMurError,
>)
    ensures
        match *connection_info {
            ConnectionInfo::OpenAiApiKey { api_key, api_endpoint, .. } => r == Ok::<
                ProviderConnection,
                LLMurError,
            >(ProviderConnection::OpenAi { api_key, api_endpoint }),
            ConnectionInfo::AzureOpenAiApiKey { api_key, api_endpoint, api_version, .. } => r
                == Ok::<ProviderConnection, LLMurError>(
                ProviderConnection::Azure { api_key, api_endpoint, api_version },
            ),
            ConnectionInfo::GeminiApiKey { api_key, api_endpoint, api_version, model } => r
                == Ok::<ProviderConnection, LLMurError>(
                ProviderConnection::Gemini { api_key, api_endpoint, api_version, model },
            ),
        },
{
    match connection_info {
        ConnectionInfo::OpenAiApiKey { api_key, api_endpoint, .. } => Ok(
            ProviderConnection::OpenAi { api_key: api_key.clone(), api_endpoint: api_endpoint.clone() },
        ),
        ConnectionInfo::AzureOpenAiApiKey { api_key, api_endpoint, api_version, .. } => Ok(
            ProviderConnection::Azure {
                api_key: api_key.clone(),
                api_endpoint: api_endpoint.clone(),
                api_version: *api_version,
            },
        ),
        ConnectionInfo::GeminiApiKey { api_key, api_endpoint, api_version, model } => Ok(
            ProviderConnection::Gemini {
                api_key: api_key.clone(),
                api_endpoint: api_endpoint.clone(),
                api_version: *api_version,
                model: model.clone(),
            },
        ),
    }
}

/// The Azure OpenAI v1 API base: the endpoint without trailing slashes, with
/// `/openai/v1` appended unless it already ends so.
pub open spec fn spec_azure_api_base(api_endpoint: Seq<char>) -> Seq<char> {
    let b = trim_end_char(api_endpoint, '/');
    if is_suffix("/openai/v1"@, b) {
        b
    } else {
        b + "/openai/v1"@
    }
}

pub fn azure_api_base(api_endpoint: &str) -> (r: String)
    ensures
        r@ == spec_azure_api_base(api_endpoint@),
{
    let api_base = trim_end_char_str(api_endpoint, '/');
    if ends_with(api_base, "/openai/v1") {
        to_owned(api_base)
    } else {
        concat(api_base, "/openai/v1")
    }
}

/// The path segment of a Gemini API version.
pub fn gemini_api_version(api_version: &GeminiApiVersion) -> (r: &'static str)
    ensures
        r@ == "v1beta"@,
{
    match api_version {
        GeminiApiVersion::V1BETA => "v1beta",
    }
}

} // verus!
