//! Request and response payloads of the `codexium/*` app-server methods.
//! Maps keyed by provider id or model slug are `StrMap`s; registry prices are
//! the bit patterns of their `f64` values.

use vstd::prelude::*;

use crate::str_map::StrMap;

verus! {

/// Params for `codexium/models/read`.
pub struct CodexiumModelsReadParams {}

/// A single custom model as stored in `codexium/models.json`.
pub struct CodexiumModelSettings {
    /// Whether this model is enabled in the picker; kept (not removed) when disabled.
    pub enabled: bool,
    pub label: Option<String>,
    pub description: Option<String>,
    pub context_window: Option<i64>,
    pub max_context_window: Option<i64>,
    pub auto_compact_token_limit: Option<i64>,
    pub max_output_tokens: Option<i64>,
    pub tool_output_token_limit: Option<i64>,
}

/// A custom provider as stored in `codexium/models.json`.
pub struct CodexiumProviderSettings {
    pub label: Option<String>,
    pub base_url: Option<String>,
    pub env_key: Option<String>,
    pub wire_api: Option<String>,
    pub requires_openai_auth: bool,
    /// Read-only provider (e.g. OpenAI): models can be toggled but the provider
    /// cannot be edited or removed.
    pub readonly: bool,
    pub provider_type: Option<String>,
    pub icon: Option<String>,
    /// Per-model configuration keyed by model slug.
    pub models: StrMap<CodexiumModelSettings>,
}

/// A single model entry of the provider registry, as sent to the client.
pub struct CodexiumRegistryModel {
    pub name: String,
    pub label: Option<String>,
    pub context_window: Option<i64>,
    pub max_output_tokens: Option<i64>,
    pub input: Option<u64>,
    pub output: Option<u64>,
    pub description: Option<String>,
}

/// A single provider definition of the registry, as sent to the client.
pub struct CodexiumRegistryProvider {
    pub id: String,
    pub name: String,
    pub provider_type: String,
    pub recommended: bool,
    pub description: Option<String>,
    pub base_url: Option<String>,
    pub env_key: Option<String>,
    pub icon: Option<String>,
    pub models: Vec<CodexiumRegistryModel>,
}

/// Params for `codexium/registry/read`.
pub struct CodexiumRegistryReadParams {}

/// Response for `codexium/registry/read`; `refreshed` tells whether the
/// registry came from the network refresh.
pub struct CodexiumRegistryReadResponse {
    pub version: String,
    pub providers: Vec<CodexiumRegistryProvider>,
    pub refreshed: bool,
}

/// Params for `codexium/providers/connect`: copies a provider into
/// `models.json` and optionally stores its API key.
pub struct CodexiumProvidersConnectParams {
    pub provider_id: String,
    pub label: Option<String>,
    pub base_url: Option<String>,
    pub env_key: Option<String>,
    pub provider_type: Option<String>,
    pub icon: Option<String>,
    pub api_key: Option<String>,
    pub models: Vec<CodexiumRegistryModel>,
}

/// Response for `codexium/providers/connect`.
pub struct CodexiumProvidersConnectResponse {}

/// Params for `codexium/providers/disconnect`.
pub struct CodexiumProvidersDisconnectParams {
    pub provider_id: String,
}

/// Response for `codexium/providers/disconnect`.
pub struct CodexiumProvidersDisconnectResponse {}

/// The health of a single provider, checked by hitting its API.
pub struct CodexiumProviderStatus {
    pub provider_id: String,
    /// `true` when the API responded successfully to a lightweight request.
    pub ok: bool,
    /// Human-readable detail (error message or "OK").
    pub message: String,
    /// Duration of the check in milliseconds.
    pub latency_ms: i64,
    /// Unix seconds when the check ran.
    pub checked_at: i64,
}

/// Params for `codexium/providers/check`; no provider id checks all.
pub struct CodexiumProvidersCheckParams {
    pub provider_id: Option<String>,
}

/// Response for `codexium/providers/check`.
pub struct CodexiumProvidersCheckResponse {
    pub statuses: Vec<CodexiumProviderStatus>,
}

/// Response for `codexium/models/read`: custom providers keyed by provider id.
pub struct CodexiumModelsReadResponse {
    pub providers: StrMap<CodexiumProviderSettings>,
}

/// Params for `codexium/models/write`: the full set of custom providers to persist.
pub struct CodexiumModelsWriteParams {
    pub providers: StrMap<CodexiumProviderSettings>,
}

/// Response for `codexium/models/write`.
pub struct CodexiumModelsWriteResponse {}

/// Serde default for `enabled`: models are enabled unless stated otherwise.
pub fn default_true() -> (r: bool)
    ensures
        r,
{
    true
}

} // verus!
