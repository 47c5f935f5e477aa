//! The provider registry as answered to `codexium/registry/read`.

use vstd::prelude::*;

use crate::processor::CodexiumRequestProcessor;
use crate::protocol::{CodexiumRegistryModel, CodexiumRegistryProvider, CodexiumRegistryReadResponse};
use crate::registry::{ProviderRegistry, RegistryModel, RegistryProvider};

verus! {

/// `w` carries every field of registry model `m`.
pub open spec fn is_wire_model(w: CodexiumRegistryModel, m: RegistryModel) -> bool {
    &&& w.name == m.name
    &&& w.label == m.label
    &&& w.context_window == m.context_window
    &&& w.max_output_tokens == m.max_output_tokens
    &&& w.input == m.input
    &&& w.output == m.output
    &&& w.description == m.description
}

/// `w` carries every field of registry provider `p`, its models in order.
pub open spec fn is_wire_provider(w: CodexiumRegistryProvider, p: RegistryProvider) -> bool {
    &&& w.id == p.id
    &&& w.name == p.name
    &&& w.provider_type == p.provider_type
    &&& w.recommended == p.recommended
    &&& w.description == p.description
    &&& w.base_url == p.base_url
    &&& w.env_key == p.env_key
    &&& w.icon == p.icon
    &&& w.models@.len() == p.models@.len()
    &&& forall|i: int|
        0 <= i < w.models@.len() ==> is_wire_model(#[trigger] w.models@[i], p.models@[i])
}

/// A registry model as sent to the client.
pub fn registry_model_to_wire(model: RegistryModel) -> (w: CodexiumRegistryModel)
    ensures
        is_wire_model(w, model),
{
    CodexiumRegistryModel {
        name: model.name,
        label: model.label,
        context_window: model.context_window,
        max_output_tokens: model.max_output_tokens,
        input: model.input,
        output: model.output,
        description: model.description,
    }
}

/// A registry provider as sent to the client.
pub fn registry_provider_to_wire(provider: RegistryProvider) -> (w: CodexiumRegistryProvider)
    ensures
        is_wire_provider(w, provider),
{
    let ghost src = provider.models@;
    let mut models: Vec<CodexiumRegistryModel> = Vec::new();
    for model in it: provider.models
        invariant
            it.seq() == src,
            models@.len() == it.index(),
            forall|i: int| 0 <= i < it.index() ==> is_wire_model(#[trigger] models@[i], src[i]),
    {
        models.push(registry_model_to_wire(model));
    }
    CodexiumRegistryProvider {
        id: provider.id,
        name: provider.name,
        provider_type: provider.provider_type,
        recommended: provider.recommended,
        description: provider.description,
        base_url: provider.base_url,
        env_key: provider.env_key,
        icon: provider.icon,
        models,
    }
}

impl CodexiumRequestProcessor {
    /// The `codexium/registry/read` answer for a registry; `refreshed` tells
    /// whether it came from the network refresh.
    pub fn registry_response(&self, registry: ProviderRegistry, refreshed: bool) -> (r:
        CodexiumRegistryReadResponse)
        ensures
            r.version == registry.version,
            r.refreshed == refreshed,
            r.providers@.len() == registry.providers@.len(),
            forall|i: int|
                0 <= i < r.providers@.len() ==> is_wire_provider(
                    #[trigger] r.providers@[i],
                    registry.providers@[i],
                ),
    {
        let ghost src = registry.providers@;
        let mut providers: Vec<CodexiumRegistryProvider> = Vec::new();
        for provider in it: registry.providers
            invariant
                it.seq() == src,
                providers@.len() == it.index(),
                forall|i: int|
                    0 <= i < it.index() ==> is_wire_provider(#[trigger] providers@[i], src[i]),
        {
            providers.push(registry_provider_to_wire(provider));
        }
        CodexiumRegistryReadResponse { version: registry.version, providers, refreshed }
    }
}

} // verus!
