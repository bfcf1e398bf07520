//! The model-client surface: provider description, auth selection inputs,
//! and the request-compression rule.
use vstd::prelude::*;
use crate::config::Feature;
use crate::config::Features;

verus! {

/// Which wire API family a provider speaks.
#[derive(Clone, Copy, Debug, PartialEq, Eq, Structural)]
pub enum WireApi {
    Responses,
    Chat,
}

/// Everything the client needs to know about one model provider.
#[derive(Clone, Debug)]
pub struct ModelProviderInfo {
    pub name: String,
    pub base_url: String,
    pub wire_api: WireApi,
    /// An API key already resolved from the environment, when one is set.
    pub api_key: Option<String>,
    pub experimental_bearer_token: Option<String>,
    pub request_max_retries: u64,
    pub stream_max_retries: u64,
}

impl ModelProviderInfo {
    /// The API key for this provider, if one was configured.
    pub fn api_key(&self) -> (r: Option<String>)
        ensures
            r == self.api_key,
    {
        match &self.api_key {
            Some(k) => Some(k.clone()),
            None => None,
        }
    }
}

/// The kind of credential a request goes out with.
#[derive(Clone, Copy, Debug, PartialEq, Eq, Structural)]
pub enum AuthKind {
    ApiKey,
    /// A bearer token tied to a user account.
    AccountBearer,
    NoAuth,
}

/// Whether an outbound request body is compressed: only account-bearer auth
/// with the compression feature enabled compresses; API-key auth never does.
pub fn should_compress_request(auth: AuthKind, features: &Features) -> (r: bool)
    ensures
        r == (auth == AuthKind::AccountBearer && features.enabled_spec(
            Feature::EnableRequestCompression,
        )),
{
    match auth {
        AuthKind::AccountBearer => features.enabled(Feature::EnableRequestCompression),
        _ => false,
    }
}

/// Output of a memory-trace summarization request.
#[derive(Clone, Debug, PartialEq, Eq)]
pub struct ApiMemoryTraceSummaryOutput {
    pub trace_summary: String,
    pub memory_summary: String,
}

/// Handle for a pre-established streaming connection.
#[derive(Clone, Copy, Debug, PartialEq, Eq, Structural)]
pub struct ApiWebSocketConnection;

/// Sink for request-level telemetry.
pub trait RequestTelemetry {

}

/// Telemetry sink that forwards to the tracing collaborator.
#[derive(Clone, Copy, Debug, PartialEq, Eq, Structural)]
pub struct ApiTelemetry;

impl ApiTelemetry {
    pub fn new() -> (r: ApiTelemetry)
        ensures
            r == ApiTelemetry,
    {
        ApiTelemetry
    }
}

impl RequestTelemetry for ApiTelemetry {

}

/// Provider handle used by the transport layer.
#[derive(Clone, Copy, Debug, PartialEq, Eq, Structural)]
pub struct ApiProvider;

/// Options for a Responses-API request.
#[derive(Clone, Copy, Debug, PartialEq, Eq, Structural)]
pub struct ApiResponsesOptions;

/// Marker for request-body compression.
#[derive(Clone, Copy, Debug, PartialEq, Eq, Structural)]
pub struct Compression;

} // verus!
