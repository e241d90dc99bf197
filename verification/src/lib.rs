//! Verified core of an OpenAI-compatible LLM gateway: virtual batch and file
//! bookkeeping, request-count and status reconciliation, credential parsing,
//! server-sent-event framing and request transformations.

pub mod batch_types;
pub mod text;
pub mod ids;
pub mod batch_rules;
pub mod batch_surface;
pub mod errors;
pub mod uuid_text;
pub mod records;
pub mod batch_fanout;
pub mod error_files;
pub mod providers;
pub mod batch_ops;
pub mod line_map;
pub mod json;
pub mod openai_request;
pub mod azure_request;
pub mod azure_transform;
pub mod openai_response;
pub mod openai_embeddings;
pub mod accounts;
pub mod auth;
pub mod user_context;
pub mod user_context_load;
pub mod connection_view;
pub mod openai_responder;
pub mod batch_lines;
pub mod request_totals;
pub mod result_files;
pub mod provider_requests;
pub mod pagination;
pub mod route_utils;
pub mod virtual_files;
pub mod failover;
pub mod sse;
pub mod chat_stream;
pub mod gemini_stream;
pub mod proxy_replies;
pub mod responses_stream;
pub mod user_routes;
pub mod output_lines;
pub mod management_views;
pub mod proxy_calls;
pub mod file_routes;
pub mod json_text;
pub mod fanout_plan;
