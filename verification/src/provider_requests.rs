//! `codexium/providers/*` requests: connecting and disconnecting a provider,
//! as functions from the loaded files and the request to the files to write.

use vstd::prelude::*;
use vstd::string::StrSliceExecFns;

use crate::codexium::{
    CodexiumModelConfig, CodexiumModelsFile, CodexiumProviderConfig, OPENAI_PROVIDER_ID,
};
use crate::processor::{CodexiumRequestError, CodexiumRequestProcessor};
use crate::protocol::{
    CodexiumProvidersConnectParams, CodexiumProvidersDisconnectParams, CodexiumRegistryModel,
};
use crate::str_map::StrMap;
use crate::text::{concat_strs, str_eq, to_uppercase, uppercase};

verus! {

/// The suffix of the default environment variable of a connected provider.
pub const API_KEY_ENV_SUFFIX: &'static str = "_API_KEY";

/// The files that `codexium/providers/connect` writes and the key it exports.
pub struct ProviderConnectOutcome {
    /// The new contents of `models.json`.
    pub models_file: CodexiumModelsFile,
    /// The new `providers` map of `auth.json`, when an API key was given.
    pub auth_providers: Option<StrMap<String>>,
    /// The environment variable and value to export when it is not set yet.
    pub key_export: Option<(String, String)>,
}

/// The files that `codexium/providers/disconnect` writes.
pub struct ProviderDisconnectOutcome {
    /// The new contents of `models.json`.
    pub models_file: CodexiumModelsFile,
    /// The new `providers` map of `auth.json`.
    pub auth_providers: StrMap<String>,
}

/// The stored config a new registry model starts from: enabled, with the
/// registry's label, description, context window and output limit.
pub open spec fn fresh_model_config(m: CodexiumRegistryModel) -> CodexiumModelConfig {
    CodexiumModelConfig {
        enabled: true,
        label: m.label,
        description: m.description,
        context_window: m.context_window,
        max_context_window: None,
        auto_compact_token_limit: None,
        max_output_tokens: m.max_output_tokens,
        tool_output_token_limit: None,
        shell_type: None,
    }
}

/// The models seeded from the registry models: a model already stored keeps
/// its stored config, a new one starts fresh; a later entry of the same name
/// wins.
pub open spec fn seeded_models(
    models: Seq<CodexiumRegistryModel>,
    prior: Map<Seq<char>, CodexiumModelConfig>,
) -> Map<Seq<char>, CodexiumModelConfig>
    decreases models.len(),
{
    if models.len() == 0 {
        Map::empty()
    } else {
        let m = models.last();
        seeded_models(models.drop_last(), prior).insert(
            m.name@,
            if prior.contains_key(m.name@) {
                prior[m.name@]
            } else {
                fresh_model_config(m)
            },
        )
    }
}

/// The given value when there is one, else the current one.
pub open spec fn given_or(given: Option<String>, current: Option<String>) -> Option<String> {
    match given {
        Some(v) => Some(v),
        None => current,
    }
}

/// The stored provider under `id`, if any.
pub open spec fn prior_provider(file: CodexiumModelsFile, id: Seq<char>) -> Option<
    CodexiumProviderConfig,
> {
    if file.providers@.contains_key(id) {
        Some(file.providers@[id])
    } else {
        None
    }
}

/// The label of the prior provider (none without one).
pub open spec fn prior_label(p: Option<CodexiumProviderConfig>) -> Option<String> {
    match p {
        Some(c) => c.label,
        None => None,
    }
}

/// The base URL of the prior provider (none without one).
pub open spec fn prior_base_url(p: Option<CodexiumProviderConfig>) -> Option<String> {
    match p {
        Some(c) => c.base_url,
        None => None,
    }
}

/// The environment variable of the prior provider (none without one).
pub open spec fn prior_env_key(p: Option<CodexiumProviderConfig>) -> Option<String> {
    match p {
        Some(c) => c.env_key,
        None => None,
    }
}

/// The provider type of the prior provider (none without one).
pub open spec fn prior_provider_type(p: Option<CodexiumProviderConfig>) -> Option<String> {
    match p {
        Some(c) => c.provider_type,
        None => None,
    }
}

/// The icon of the prior provider (none without one).
pub open spec fn prior_icon(p: Option<CodexiumProviderConfig>) -> Option<String> {
    match p {
        Some(c) => c.icon,
        None => None,
    }
}

/// The display name override of the prior provider (none without one).
pub open spec fn prior_name(p: Option<CodexiumProviderConfig>) -> Option<String> {
    match p {
        Some(c) => c.name,
        None => None,
    }
}

/// The models of the prior provider (none without one).
pub open spec fn prior_models(p: Option<CodexiumProviderConfig>) -> Map<
    Seq<char>,
    CodexiumModelConfig,
> {
    match p {
        Some(c) => c.models@,
        None => Map::empty(),
    }
}

/// The environment variable of the connected provider: the one given or
/// stored, else the upper-cased provider id followed by `_API_KEY`.
pub open spec fn connected_env_key(
    params: CodexiumProvidersConnectParams,
    prior: Option<CodexiumProviderConfig>,
) -> Seq<char> {
    match given_or(params.env_key, prior_env_key(prior)) {
        Some(k) => k@,
        None => uppercase(params.provider_id@) + API_KEY_ENV_SUFFIX@,
    }
}

/// `p` is the provider that connecting `params` over `prior` stores: each
/// given field replaces the stored one, it speaks `responses`, needs no
/// ChatGPT login, is editable, has an environment variable, and its models
/// are seeded from the registry models when any are given.
pub open spec fn is_connected_provider(
    p: CodexiumProviderConfig,
    prior: Option<CodexiumProviderConfig>,
    params: CodexiumProvidersConnectParams,
) -> bool {
    &&& p.label == given_or(params.label, prior_label(prior))
    &&& p.base_url == given_or(params.base_url, prior_base_url(prior))
    &&& p.provider_type == given_or(params.provider_type, prior_provider_type(prior))
    &&& p.icon == given_or(params.icon, prior_icon(prior))
    &&& p.name == prior_name(prior)
    &&& p.env_key matches Some(k) && k@ == connected_env_key(params, prior)
    &&& p.wire_api matches Some(w) && w@ == "responses"@
    &&& !p.requires_openai_auth
    &&& !p.readonly
    &&& p.models@ == if params.models@.len() == 0 {
        prior_models(prior)
    } else {
        seeded_models(params.models@, prior_models(prior))
    }
}

/// The API key that connecting stores: the one given, when it is not empty.
pub open spec fn stored_api_key(params: CodexiumProvidersConnectParams) -> Option<String> {
    match params.api_key {
        Some(k) => if k@.len() > 0 {
            Some(k)
        } else {
            None
        },
        None => None,
    }
}

/// The error answered when a request names the reserved OpenAI provider.
pub open spec fn reserved_provider_message(verb: Seq<char>) -> Seq<char> {
    "cannot "@ + verb + " the reserved `openai` provider"@
}

/// `out` is what connecting `params` over the loaded `file` and `auth`
/// gives: the provider stored as `is_connected_provider` says, every other
/// provider kept, and a non-empty API key stored and exported.
pub open spec fn is_connect_outcome(
    out: ProviderConnectOutcome,
    file: CodexiumModelsFile,
    auth: StrMap<String>,
    params: CodexiumProvidersConnectParams,
) -> bool {
    let prior = prior_provider(file, params.provider_id@);
    &&& out.models_file.providers@.dom() == file.providers@.dom().insert(params.provider_id@)
    &&& forall|k: Seq<char>|
        k != params.provider_id@ && #[trigger] file.providers@.contains_key(k)
            ==> out.models_file.providers@[k] == file.providers@[k]
    &&& is_connected_provider(out.models_file.providers@[params.provider_id@], prior, params)
    &&& match stored_api_key(params) {
        Some(k) => {
            &&& out.auth_providers matches Some(a) && a@ == auth@.insert(params.provider_id@, k)
            &&& out.key_export matches Some(e) && e.0@ == connected_env_key(params, prior) && e.1
                == k
        },
        None => out.auth_providers is None && out.key_export is None,
    }
}

/// `out` is what disconnecting provider `id` from the loaded `file` and
/// `auth` gives: the provider gone from both.
pub open spec fn is_disconnect_outcome(
    out: ProviderDisconnectOutcome,
    file: CodexiumModelsFile,
    auth: StrMap<String>,
    id: Seq<char>,
) -> bool {
    &&& out.models_file.providers@ == file.providers@.remove(id)
    &&& out.auth_providers@ == auth@.remove(id)
}

/// The `auth.json` providers after a connect: the written ones, or the loaded
/// ones when the connect wrote none.
pub open spec fn auth_after_connect(out: ProviderConnectOutcome, auth: StrMap<String>) -> Map<
    Seq<char>,
    String,
> {
    match out.auth_providers {
        Some(a) => a@,
        None => auth@,
    }
}

/// Disconnecting a provider right after connecting it leaves both files as
/// they were before, without that provider.
pub proof fn connect_then_disconnect(
    file: CodexiumModelsFile,
    auth: StrMap<String>,
    params: CodexiumProvidersConnectParams,
    connected: ProviderConnectOutcome,
    auth_written: StrMap<String>,
    disconnected: ProviderDisconnectOutcome,
)
    requires
        is_connect_outcome(connected, file, auth, params),
        auth_written@ == auth_after_connect(connected, auth),
        is_disconnect_outcome(disconnected, connected.models_file, auth_written, params.provider_id@),
    ensures
        disconnected.models_file.providers@ == file.providers@.remove(params.provider_id@),
        disconnected.auth_providers@ == auth@.remove(params.provider_id@),
{
    let id = params.provider_id@;
    assert(disconnected.models_file.providers@ =~= file.providers@.remove(id)) by {
        assert forall|k: Seq<char>| #[trigger]
            file.providers@.remove(id).contains_key(k) implies connected.models_file.providers@.remove(
            id,
        )[k] == file.providers@.remove(id)[k] by {
            assert(file.providers@.contains_key(k));
        }
    }
    assert(disconnected.auth_providers@ =~= auth@.remove(id));
}

/// The environment variable of a connected provider is the one the request
/// gives; without one, the one already stored; only when neither exists is it
/// the upper-cased provider id followed by `_API_KEY`. A stored API key is
/// exported under exactly that variable.
pub proof fn connect_keeps_the_given_env_key(
    out: ProviderConnectOutcome,
    file: CodexiumModelsFile,
    auth: StrMap<String>,
    params: CodexiumProvidersConnectParams,
)
    requires
        is_connect_outcome(out, file, auth, params),
    ensures
        ({
            let stored = out.models_file.providers@[params.provider_id@];
            let prior_key = if file.providers@.contains_key(params.provider_id@) {
                file.providers@[params.provider_id@].env_key
            } else {
                None
            };
            let expected: Seq<char> = match params.env_key {
                Some(e) => e@,
                None => match prior_key {
                    Some(e) => e@,
                    None => uppercase(params.provider_id@) + "_API_KEY"@,
                },
            };
            &&& stored.env_key matches Some(k) && k@ == expected
            &&& out.key_export matches Some(x) ==> x.0@ == expected
        }),
{
    reveal_strlit("_API_KEY");
}

fn clone_model_config(c: &CodexiumModelConfig) -> (r: CodexiumModelConfig)
    ensures
        r == *c,
{
    CodexiumModelConfig {
        enabled: c.enabled,
        label: match &c.label {
            Some(v) => Some(v.clone()),
            None => None,
        },
        description: match &c.description {
            Some(v) => Some(v.clone()),
            None => None,
        },
        context_window: c.context_window,
        max_context_window: c.max_context_window,
        auto_compact_token_limit: c.auto_compact_token_limit,
        max_output_tokens: c.max_output_tokens,
        tool_output_token_limit: c.tool_output_token_limit,
        shell_type: c.shell_type,
    }
}

/// Seeds the models of a connected provider from the registry models.
fn seed_models(models: Vec<CodexiumRegistryModel>, existing: &StrMap<CodexiumModelConfig>) -> (r:
    StrMap<CodexiumModelConfig>)
    ensures
        r@ == seeded_models(models@, existing@),
{
    let ghost all = models@;
    let mut out: StrMap<CodexiumModelConfig> = StrMap::new();
    for model in it: models
        invariant
            it.seq() == all,
            out@ == seeded_models(all.subrange(0, it.index()), existing@),
    {
        let ghost i = it.index();
        proof {
            let next = all.subrange(0, i + 1);
            assert(next.drop_last() =~= all.subrange(0, i));
            assert(next.last() == model);
        }
        match existing.get(model.name.as_str()) {
            Some(prev) => {
                let kept = clone_model_config(prev);
                out.insert(model.name, kept);
            },
            None => {
                let fresh = CodexiumModelConfig {
                    enabled: true,
                    label: model.label,
                    description: model.description,
                    context_window: model.context_window,
                    max_context_window: None,
                    auto_compact_token_limit: None,
                    max_output_tokens: model.max_output_tokens,
                    tool_output_token_limit: None,
                    shell_type: None,
                };
                out.insert(model.name, fresh);
            },
        }
    }
    proof {
        assert(all.subrange(0, all.len() as int) =~= all);
    }
    out
}

impl CodexiumRequestProcessor {
    /// Answers `codexium/providers/connect` from the loaded `models.json` and
    /// `auth.json` providers: the reserved `openai` id is refused; otherwise
    /// the provider is stored as `is_connected_provider` says, and a non-empty
    /// API key is stored under its id and exported under its environment
    /// variable.
    pub fn providers_connect(
        &self,
        file: CodexiumModelsFile,
        auth: StrMap<String>,
        params: CodexiumProvidersConnectParams,
    ) -> (r: Result<ProviderConnectOutcome, CodexiumRequestError>)
        ensures
            params.provider_id@ == OPENAI_PROVIDER_ID@ <==> r is Err,
            r matches Err(e) ==> e.message@ == reserved_provider_message("connect"@),
            r matches Ok(out) ==> is_connect_outcome(out, file, auth, params),
    {
        proof {
            reveal_strlit("openai");
            reveal_strlit("cannot connect the reserved `openai` provider");
            reveal_strlit("cannot ");
            reveal_strlit("connect");
            reveal_strlit(" the reserved `openai` provider");
            assert("cannot connect the reserved `openai` provider"@ =~= reserved_provider_message(
                "connect"@,
            ));
        }
        if str_eq(params.provider_id.as_str(), OPENAI_PROVIDER_ID) {
            return Err(
                CodexiumRequestError {
                    message: "cannot connect the reserved `openai` provider".to_owned(),
                },
            );
        }
        let ghost prior = prior_provider(file, params.provider_id@);
        let mut providers = file.providers;
        let ghost stored = providers@;
        let removed = providers.remove(params.provider_id.as_str());
        let mut provider = match removed {
            Some(p) => p,
            None => CodexiumProviderConfig {
                label: None,
                base_url: None,
                env_key: None,
                wire_api: None,
                requires_openai_auth: false,
                readonly: false,
                provider_type: None,
                icon: None,
                name: None,
                models: StrMap::new(),
            },
        };
        let CodexiumProvidersConnectParams {
            provider_id,
            label,
            base_url,
            env_key,
            provider_type,
            icon,
            api_key,
            models,
        } = params;
        if let Some(label) = label {
            provider.label = Some(label);
        }
        if let Some(base_url) = base_url {
            provider.base_url = Some(base_url);
        }
        if let Some(env_key) = env_key {
            provider.env_key = Some(env_key);
        }
        if let Some(provider_type) = provider_type {
            provider.provider_type = Some(provider_type);
        }
        if let Some(icon) = icon {
            provider.icon = Some(icon);
        }
        provider.requires_openai_auth = false;
        provider.readonly = false;
        proof {
            reveal_strlit("responses");
            reveal_strlit("_API_KEY");
        }
        provider.wire_api = Some("responses".to_owned());
        let env_name = match provider.env_key {
            Some(k) => k,
            None => {
                let upper = to_uppercase(provider_id.as_str());
                concat_strs(upper.as_str(), API_KEY_ENV_SUFFIX)
            },
        };
        provider.env_key = Some(env_name.clone());
        if models.len() > 0 {
            let seeded = seed_models(models, &provider.models);
            provider.models = seeded;
        }
        let id_for_auth = provider_id.clone();
        providers.insert(provider_id, provider);
        proof {
            assert(providers@.dom() =~= stored.dom().insert(params.provider_id@));
        }
        let models_file = CodexiumModelsFile { providers };
        match api_key {
            Some(key) => {
                if key.as_str().unicode_len() > 0 {
                    let mut auth = auth;
                    auth.insert(id_for_auth, key.clone());
                    Ok(
                        ProviderConnectOutcome {
                            models_file,
                            auth_providers: Some(auth),
                            key_export: Some((env_name, key)),
                        },
                    )
                } else {
                    Ok(ProviderConnectOutcome { models_file, auth_providers: None, key_export: None })
                }
            },
            None => Ok(
                ProviderConnectOutcome { models_file, auth_providers: None, key_export: None },
            ),
        }
    }

    /// Answers `codexium/providers/disconnect`: the reserved `openai` id is
    /// refused; otherwise the provider leaves both `models.json` and
    /// `auth.json`.
    pub fn providers_disconnect(
        &self,
        file: CodexiumModelsFile,
        auth: StrMap<String>,
        params: CodexiumProvidersDisconnectParams,
    ) -> (r: Result<ProviderDisconnectOutcome, CodexiumRequestError>)
        ensures
            params.provider_id@ == OPENAI_PROVIDER_ID@ <==> r is Err,
            r matches Err(e) ==> e.message@ == reserved_provider_message("disconnect"@),
            r matches Ok(out) ==> is_disconnect_outcome(out, file, auth, params.provider_id@),
    {
        proof {
            reveal_strlit("openai");
            reveal_strlit("cannot disconnect the reserved `openai` provider");
            reveal_strlit("cannot ");
            reveal_strlit("disconnect");
            reveal_strlit(" the reserved `openai` provider");
            assert("cannot disconnect the reserved `openai` provider"@
                =~= reserved_provider_message("disconnect"@));
        }
        if str_eq(params.provider_id.as_str(), OPENAI_PROVIDER_ID) {
            return Err(
                CodexiumRequestError {
                    message: "cannot disconnect the reserved `openai` provider".to_owned(),
                },
            );
        }
        let mut providers = file.providers;
        let _ = providers.remove(params.provider_id.as_str());
        let mut auth = auth;
        let _ = auth.remove(params.provider_id.as_str());
        Ok(
            ProviderDisconnectOutcome {
                models_file: CodexiumModelsFile { providers },
                auth_providers: auth,
            },
        )
    }
}

} // verus!
