//! Connections as stored and as the management API shows them.

use vstd::prelude::*;
use crate::ids::ConnectionId;
use crate::providers::{AzureOpenAiApiVersion, ConnectionInfo, GeminiApiVersion};

verus! {

/// A stored connection to a provider.
#[derive(Clone, Debug)]
pub struct Connection {
    pub id: ConnectionId,
    pub connection_info: ConnectionInfo,
}

/// A connection as the management API returns it, tagged by provider.
#[derive(Clone, Debug)]
pub enum GetConnectionResult {
    /// Serialised with `provider: "azure/openai"`.
    AzureOpenAi {
        id: ConnectionId,
        api_key: String,
        deployment_name: String,
        api_endpoint: String,
        api_version: AzureOpenAiApiVersion,
    },
    /// Serialised with `provider: "openai/v1"`.
    OpenAiV1 { id: ConnectionId, api_key: String, model: String, api_endpoint: String },
    /// Serialised with `provider: "gemini"`.
    Gemini {
        id: ConnectionId,
        api_key: String,
        model: String,
        api_endpoint: String,
        api_version: GeminiApiVersion,
    },
}

/// The view of a stored connection: its id and every detail of its
/// provider.
pub open spec fn connection_result(c: Connection) -> GetConnectionResult {
    match c.connection_info {
        ConnectionInfo::AzureOpenAiApiKey { api_key, api_endpoint, api_version, deployment_name } =>
            GetConnectionResult::AzureOpenAi {
            id: c.id,
            api_key,
            deployment_name,
            api_endpoint,
            api_version,
        },
        ConnectionInfo::OpenAiApiKey { api_key, api_endpoint, model } =>
            GetConnectionResult::OpenAiV1 { id: c.id, api_key, model, api_endpoint },
        ConnectionInfo::GeminiApiKey { api_key, api_endpoint, api_version, model } =>
            GetConnectionResult::Gemini { id: c.id, api_key, model, api_endpoint, api_version },
    }
}

impl vstd::std_specs::convert::FromSpecImpl<Connection> for GetConnectionResult {
    open spec fn obeys_from_spec() -> bool {
        true
    }

    open spec fn from_spec(v: Connection) -> Self {
        connection_result(v)
    }
}

impl From<Connection> for GetConnectionResult {
    fn from(connection: Connection) -> (r: Self) {
        match connection.connection_info {
            ConnectionInfo::AzureOpenAiApiKey {
                api_key,
                api_endpoint,
                api_version,
                deployment_name,
            } => GetConnectionResult::AzureOpenAi {
                id: connection.id,
                api_key,
                deployment_name,
                api_endpoint,
                api_version,
            },
            ConnectionInfo::OpenAiApiKey { api_key, api_endpoint, model } =>
                GetConnectionResult::OpenAiV1 { id: connection.id, api_key, model, api_endpoint },
            ConnectionInfo::GeminiApiKey { api_key, api_endpoint, api_version, model } =>
                GetConnectionResult::Gemini {
                id: connection.id,
                api_key,
                model,
                api_endpoint,
                api_version,
            },
        }
    }
}

} // verus!
