//! The upstream call of a proxied OpenAI request: the URL and headers the
//! chat completions, embeddings and responses routes send to each
//! provider.

use vstd::prelude::*;
use crate::providers::{spec_azure_api_base, azure_api_base, gemini_api_version, ConnectionInfo};
use crate::text::{concat, to_owned, trim_end_char, trim_end_char_str};

verus! {

/// The OpenAI route a request came in on.
#[derive(Clone, Copy, Debug, PartialEq, Eq, Structural)]
pub enum ProxyEndpoint {
    ChatCompletions,
    Embeddings,
    Responses,
}

/// The upstream call: where it goes and the headers it carries, in order.
#[derive(Clone, Debug)]
pub struct ProxyCall {
    pub url: String,
    pub headers: Vec<(String, String)>,
}

/// Whether the call streams and whether the caller asked for usage in the
/// stream: each flag as the request sets it, else off.
pub fn stream_flags(stream: Option<bool>, include_usage: Option<bool>) -> (r: (bool, bool))
    ensures
        r.0 == match stream {
            Some(s) => s,
            None => false,
        },
        r.1 == match include_usage {
            Some(u) => u,
            None => false,
        },
{
    let s = match stream {
        Some(s) => s,
        None => false,
    };
    let u = match include_usage {
        Some(u) => u,
        None => false,
    };
    (s, u)
}

/// The URL of the upstream call. `model` is the model the Gemini request
/// names; `v` is the text of the Azure API version. OpenAI endpoints are
/// appended to the endpoint as given; Azure chat and responses go to the
/// v1 API base and Azure embeddings to the deployment; Gemini's key rides
/// in the query.
pub open spec fn spec_proxy_url(
    c: ConnectionInfo,
    endpoint: ProxyEndpoint,
    stream: bool,
    model: Seq<char>,
    v: Seq<char>,
) -> Seq<char> {
    match c {
        ConnectionInfo::OpenAiApiKey { api_endpoint, .. } => api_endpoint@ + match endpoint {
            ProxyEndpoint::ChatCompletions => "/v1/chat/completions"@,
            ProxyEndpoint::Embeddings => "/v1/embeddings"@,
            ProxyEndpoint::Responses => "/v1/responses"@,
        },
        ConnectionInfo::AzureOpenAiApiKey { api_endpoint, deployment_name, .. } => match endpoint {
            ProxyEndpoint::ChatCompletions => spec_azure_api_base(api_endpoint@) + "/chat/completions"@,
            ProxyEndpoint::Responses => spec_azure_api_base(api_endpoint@) + "/responses"@,
            ProxyEndpoint::Embeddings => api_endpoint@ + "/openai/deployments/"@ + deployment_name@
                + "/embeddings?api-version="@ + v,
        },
        ConnectionInfo::GeminiApiKey { api_key, api_endpoint, .. } => {
            let head = trim_end_char(api_endpoint@, '/') + "/v1beta/models/"@ + model;
            let action = match endpoint {
                ProxyEndpoint::Embeddings => ":embedContent?key="@,
                _ => if stream {
                    ":streamGenerateContent?alt=sse&key="@
                } else {
                    ":generateContent?key="@
                },
            };
            head + action + api_key@
        },
    }
}

/// The headers of the upstream call: the credential (`api-key` for Azure,
/// a bearer token for OpenAI, none for Gemini), the JSON content type, and
/// `Accept: text/event-stream` for a streamed chat or responses call.
pub open spec fn spec_proxy_headers(c: ConnectionInfo, endpoint: ProxyEndpoint, stream: bool) -> Seq<
    (Seq<char>, Seq<char>),
> {
    let credential = match c {
        ConnectionInfo::AzureOpenAiApiKey { api_key, .. } => seq![("api-key"@, api_key@)],
        ConnectionInfo::OpenAiApiKey { api_key, .. } => seq![("Authorization"@, "Bearer "@ + api_key@)],
        ConnectionInfo::GeminiApiKey { .. } => Seq::empty(),
    };
    let accept = if stream && endpoint != ProxyEndpoint::Embeddings {
        seq![("Accept"@, "text/event-stream"@)]
    } else {
        Seq::empty()
    };
    credential + seq![("Content-Type"@, "application/json"@)] + accept
}

pub open spec fn header_views(h: Seq<(String, String)>) -> Seq<(Seq<char>, Seq<char>)> {
    h.map_values(|p: (String, String)| (p.0@, p.1@))
}

fn header(name: &str, value: &str) -> (r: (String, String))
    ensures
        r.0@ == name@ && r.1@ == value@,
{
    (to_owned(name), to_owned(value))
}

/// The upstream call of a request on `endpoint` over connection `c`.
pub fn proxy_call(
    c: &ConnectionInfo,
    endpoint: ProxyEndpoint,
    stream: bool,
    model: &str,
    azure_api_version: &str,
) -> (r: ProxyCall)
    ensures
        r.url@ == spec_proxy_url(*c, endpoint, stream, model@, azure_api_version@),
        header_views(r.headers@) == spec_proxy_headers(*c, endpoint, stream),
{
    proof {
        reveal_strlit("/v1/chat/completions");
        reveal_strlit("/v1/embeddings");
        reveal_strlit("/v1/responses");
        reveal_strlit("/chat/completions");
        reveal_strlit("/responses");
        reveal_strlit("/openai/deployments/");
        reveal_strlit("/embeddings?api-version=");
        reveal_strlit("/");
        reveal_strlit("/models/");
        reveal_strlit("/v1beta/models/");
        reveal_strlit("v1beta");
        reveal_strlit(":embedContent?key=");
        reveal_strlit(":streamGenerateContent?alt=sse&key=");
        reveal_strlit(":generateContent?key=");
    }
    let url = match c {
        ConnectionInfo::OpenAiApiKey { api_endpoint, .. } => {
            let tail = match endpoint {
                ProxyEndpoint::ChatCompletions => "/v1/chat/completions",
                ProxyEndpoint::Embeddings => "/v1/embeddings",
                ProxyEndpoint::Responses => "/v1/responses",
            };
            concat(api_endpoint.as_str(), tail)
        },
        ConnectionInfo::AzureOpenAiApiKey { api_endpoint, deployment_name, .. } => match endpoint {
            ProxyEndpoint::ChatCompletions => {
                let base = azure_api_base(api_endpoint.as_str());
                concat(base.as_str(), "/chat/completions")
            },
            ProxyEndpoint::Responses => {
                let base = azure_api_base(api_endpoint.as_str());
                concat(base.as_str(), "/responses")
            },
            ProxyEndpoint::Embeddings => {
                let e = api_endpoint.as_str();
                let d = deployment_name.as_str();
                let mut r = to_owned(e);
                r.append("/openai/deployments/");
                r.append(d);
                r.append("/embeddings?api-version=");
                r.append(azure_api_version);
                r
            },
        },
        ConnectionInfo::GeminiApiKey { api_key, api_endpoint, api_version, .. } => {
            let trimmed = trim_end_char_str(api_endpoint.as_str(), '/');
            let version = gemini_api_version(api_version);
            let action = match endpoint {
                ProxyEndpoint::Embeddings => ":embedContent?key=",
                _ => if stream {
                    ":streamGenerateContent?alt=sse&key="
                } else {
                    ":generateContent?key="
                },
            };
            let mut r = to_owned(trimmed);
            r.append("/");
            r.append(version);
            r.append("/models/");
            assert(r@ =~= trimmed@ + "/v1beta/models/"@);
            r.append(model);
            r.append(action);
            r.append(api_key.as_str());
            r
        },
    };
    proof {
        reveal_strlit("api-key");
        reveal_strlit("Authorization");
        reveal_strlit("Bearer ");
        reveal_strlit("Content-Type");
        reveal_strlit("application/json");
        reveal_strlit("Accept");
        reveal_strlit("text/event-stream");
    }
    let mut headers: Vec<(String, String)> = Vec::new();
    match c {
        ConnectionInfo::AzureOpenAiApiKey { api_key, .. } => {
            headers.push(header("api-key", api_key.as_str()));
        },
        ConnectionInfo::OpenAiApiKey { api_key, .. } => {
            let bearer = concat("Bearer ", api_key.as_str());
            headers.push(header("Authorization", bearer.as_str()));
        },
        ConnectionInfo::GeminiApiKey { .. } => {},
    }
    let ghost credential = header_views(headers@);
    headers.push(header("Content-Type", "application/json"));
    let embeddings = match endpoint {
        ProxyEndpoint::Embeddings => true,
        _ => false,
    };
    if stream && !embeddings {
        headers.push(header("Accept", "text/event-stream"));
    }
    assert(header_views(headers@) =~= spec_proxy_headers(*c, endpoint, stream));
    ProxyCall { url, headers }
}

} // verus!
