//! The Codexium customization layer: per-provider model metadata read from
//! `<codex_home>/codexium/models.json` and API keys from
//! `<codex_home>/codexium/auth.json`, merged into the model catalog, the
//! picker presets and the runtime provider map.

use vstd::prelude::*;
use vstd::string::StringExecFns;

use crate::str_map::StrMap;
use crate::text::{concat_strs, join_path, joined_path, str_eq, strip_prefix_or_self, stripped};

verus! {

pub const CODEXIUM_DIR_NAME: &'static str = "codexium";

pub const MODELS_FILE_NAME: &'static str = "models.json";

pub const AUTH_FILE_NAME: &'static str = "auth.json";

pub const REGISTRY_FILE_NAME: &'static str = "providers-registry.json";

/// Contents a missing `models.json` is created with.
pub const DEFAULT_MODELS_JSON: &'static str = "{\n  \"providers\": {}\n}\n";

/// Contents a missing `auth.json` is created with.
pub const DEFAULT_AUTH_JSON: &'static str = "{\n  \"providers\": {}\n}\n";

/// The reserved id of the built-in, read-only OpenAI provider.
pub const OPENAI_PROVIDER_ID: &'static str = "openai";

/// Shell execution capability of a model.
#[derive(Clone, Copy, Debug, PartialEq, Eq)]
pub enum ConfigShellToolType {
    Default,
    Local,
    UnifiedExec,
    Disabled,
    ShellCommand,
}

/// Per-model configuration stored under `providers.<provider>.models.<model>`.
pub struct CodexiumModelConfig {
    /// Whether this model is enabled in the picker.
    pub enabled: bool,
    pub label: Option<String>,
    pub description: Option<String>,
    pub context_window: Option<i64>,
    pub max_context_window: Option<i64>,
    pub auto_compact_token_limit: Option<i64>,
    pub max_output_tokens: Option<i64>,
    pub tool_output_token_limit: Option<i64>,
    pub shell_type: Option<ConfigShellToolType>,
}

/// Per-provider configuration stored under `providers.<provider>`.
pub struct CodexiumProviderConfig {
    /// Friendly provider display name shown in the model picker.
    pub label: Option<String>,
    /// Base URL of the provider's OpenAI-compatible API; only providers with
    /// one are registered as runtime providers.
    pub base_url: Option<String>,
    /// Environment variable that holds the user's API key for this provider.
    pub env_key: Option<String>,
    /// Wire protocol the provider expects (`responses`).
    pub wire_api: Option<String>,
    pub requires_openai_auth: bool,
    /// Read-only provider: its models can be toggled, the provider not edited.
    pub readonly: bool,
    /// `"openai"`, `"apiKey"` or `"custom"`.
    pub provider_type: Option<String>,
    pub icon: Option<String>,
    /// Display name override (falls back to `label`).
    pub name: Option<String>,
    /// Per-model configuration keyed by model slug.
    pub models: StrMap<CodexiumModelConfig>,
}

/// How a `providers.<provider>` value of `models.json` is read.
#[derive(Clone, Copy, PartialEq, Eq, Structural, Debug)]
pub enum ProviderConfigForm {
    /// An object with a `models` field: the provider's fields and its models.
    Structured,
    /// The legacy flat form: the whole value is the map of models.
    LegacyModels,
}

/// The form of a `providers.<provider>` value: structured when it is an
/// object that has a `models` field, the legacy flat model map otherwise.
pub fn provider_config_form(is_object: bool, has_models_field: bool) -> (f: ProviderConfigForm)
    ensures
        f == ProviderConfigForm::Structured <==> (is_object && has_models_field),
{
    if is_object && has_models_field {
        ProviderConfigForm::Structured
    } else {
        ProviderConfigForm::LegacyModels
    }
}

/// Parsed contents of `codexium/models.json`.
pub struct CodexiumModelsFile {
    pub providers: StrMap<CodexiumProviderConfig>,
}

/// Parsed contents of `codexium/auth.json`: API keys by provider id.
pub struct CodexiumAuthFile {
    pub providers: StrMap<String>,
}

/// One value of the `providers` object of `auth.json`, as found in the file.
pub enum AuthEntryValue {
    /// A plain string: the API key itself.
    Key(String),
    /// An object; `api_key` holds its `api_key` field when that is a string.
    Object { api_key: Option<String> },
    /// Any other JSON value.
    Invalid,
}

/// The API key an `auth.json` entry provides, if any.
pub open spec fn entry_api_key(v: AuthEntryValue) -> Option<String> {
    match v {
        AuthEntryValue::Key(k) => Some(k),
        AuthEntryValue::Object { api_key } => api_key,
        AuthEntryValue::Invalid => None,
    }
}

/// API keys by provider id from the raw `auth.json` entries: entries without
/// a usable key are skipped; a later entry for the same id wins.
pub open spec fn api_keys_of(entries: Seq<(String, AuthEntryValue)>) -> Map<Seq<char>, String>
    decreases entries.len(),
{
    if entries.len() == 0 {
        Map::empty()
    } else {
        let m = api_keys_of(entries.drop_last());
        match entry_api_key(entries.last().1) {
            Some(k) => m.insert(entries.last().0@, k),
            None => m,
        }
    }
}

impl CodexiumAuthFile {
    /// An empty auth file.
    pub fn new() -> (f: Self)
        ensures
            f.providers@ == Map::<Seq<char>, String>::empty(),
    {
        CodexiumAuthFile { providers: StrMap::new() }
    }

    /// Reads the `providers` entries of `auth.json`. Both the flat form
    /// (`"<provider>": "<key>"`) and the nested form
    /// (`"<provider>": { "api_key": "<key>" }`) are accepted.
    pub fn from_entries(entries: Vec<(String, AuthEntryValue)>) -> (f: Self)
        ensures
            f.providers@ == api_keys_of(entries@),
    {
        let mut providers: StrMap<String> = StrMap::new();
        let ghost all = entries@;
        for entry in it: entries
            invariant
                it.seq() == all,
                providers@ == api_keys_of(all.subrange(0, it.index())),
        {
            let ghost i = it.index();
            proof {
                assert(all.subrange(0, i + 1).drop_last() =~= all.subrange(0, i));
                assert(all.subrange(0, i + 1).last() == entry);
            }
            let (provider_id, value) = entry;
            match value {
                AuthEntryValue::Key(api_key) => {
                    providers.insert(provider_id, api_key);
                },
                AuthEntryValue::Object { api_key } => {
                    if let Some(api_key) = api_key {
                        providers.insert(provider_id, api_key);
                    }
                },
                AuthEntryValue::Invalid => {},
            }
        }
        proof {
            assert(all.subrange(0, all.len() as int) =~= all);
        }
        CodexiumAuthFile { providers }
    }
}

/// Returns the codexium folder of a Codex home.
pub fn codexium_dir(codex_home: &str) -> (dir: String)
    ensures
        dir@ == joined_path(codex_home@, CODEXIUM_DIR_NAME@),
{
    join_path(codex_home, CODEXIUM_DIR_NAME)
}

/// `path` is the file `name` in the codexium folder of the Codex home `home`.
pub open spec fn is_codexium_file(path: Seq<char>, home: Seq<char>, name: Seq<char>) -> bool {
    path == joined_path(joined_path(home, CODEXIUM_DIR_NAME@), name)
}

/// The path of the codexium file `name` of a Codex home.
fn codexium_file(codex_home: &str, name: &str) -> (path: String)
    ensures
        is_codexium_file(path@, codex_home@, name@),
{
    let dir = codexium_dir(codex_home);
    join_path(dir.as_str(), name)
}

/// The path of `models.json` of a Codex home.
pub fn models_path(codex_home: &str) -> (path: String)
    ensures
        is_codexium_file(path@, codex_home@, MODELS_FILE_NAME@),
{
    codexium_file(codex_home, MODELS_FILE_NAME)
}

/// The path of `auth.json` of a Codex home.
pub fn auth_path(codex_home: &str) -> (path: String)
    ensures
        is_codexium_file(path@, codex_home@, AUTH_FILE_NAME@),
{
    codexium_file(codex_home, AUTH_FILE_NAME)
}

/// The path of the persisted (network-refreshed) provider registry.
pub fn registry_path(codex_home: &str) -> (path: String)
    ensures
        is_codexium_file(path@, codex_home@, REGISTRY_FILE_NAME@),
{
    codexium_file(codex_home, REGISTRY_FILE_NAME)
}

/// The config files to create so that both exist: each missing one, with its
/// default contents (`models.json` first). A file that exists is never
/// listed, so user content is never overwritten.
pub fn ensure_default_files(codex_home: &str, models_exists: bool, auth_exists: bool) -> (files:
    Vec<(String, &'static str)>)
    ensures
        files@.len() == (if models_exists {
            0int
        } else {
            1int
        }) + (if auth_exists {
            0int
        } else {
            1int
        }),
        !models_exists ==> is_codexium_file(files@[0].0@, codex_home@, MODELS_FILE_NAME@)
            && files@[0].1@ == DEFAULT_MODELS_JSON@,
        !auth_exists ==> {
            let i = if models_exists {
                0int
            } else {
                1int
            };
            is_codexium_file(files@[i].0@, codex_home@, AUTH_FILE_NAME@) && files@[i].1@
                == DEFAULT_AUTH_JSON@
        },
{
    let mut files: Vec<(String, &'static str)> = Vec::new();
    if !models_exists {
        files.push((models_path(codex_home), DEFAULT_MODELS_JSON));
    }
    if !auth_exists {
        files.push((auth_path(codex_home), DEFAULT_AUTH_JSON));
    }
    files
}

/// Wire protocols a runtime provider can speak.
#[derive(Clone, Copy, Debug, PartialEq, Eq)]
pub enum WireApi {
    Responses,
}

/// A runtime model provider: where requests go and how they authenticate.
pub struct ModelProviderInfo {
    pub name: String,
    pub base_url: Option<String>,
    pub env_key: Option<String>,
    pub wire_api: WireApi,
    pub requires_openai_auth: bool,
}

/// The display name of a provider: its `name`, else its `label`, else its id.
pub open spec fn provider_display_name(id: Seq<char>, config: CodexiumProviderConfig) -> Seq<char> {
    match config.name {
        Some(n) => n@,
        None => match config.label {
            Some(l) => l@,
            None => id,
        },
    }
}

/// `info` is the runtime provider registered for provider `id` with `config`.
pub open spec fn is_runtime_provider_for(
    info: ModelProviderInfo,
    id: Seq<char>,
    config: CodexiumProviderConfig,
) -> bool {
    &&& info.name@ == provider_display_name(id, config)
    &&& info.base_url == config.base_url
    &&& info.env_key == config.env_key
    &&& info.wire_api == WireApi::Responses
    &&& info.requires_openai_auth == config.requires_openai_auth
}

fn clone_opt_string(s: &Option<String>) -> (r: Option<String>)
    ensures
        r == *s,
{
    match s {
        Some(v) => Some(v.clone()),
        None => None,
    }
}

/// Builds the runtime providers declared in `models.json`: one per provider
/// that has a `base_url`, speaking the `responses` wire protocol (the only
/// one supported; any other `wire_api` value falls back to it).
pub fn build_codexium_model_providers(file: &CodexiumModelsFile) -> (providers: StrMap<
    ModelProviderInfo,
>)
    ensures
        forall|id: Seq<char>|
            #[trigger] providers@.contains_key(id) <==> (file.providers@.contains_key(id)
                && file.providers@[id].base_url is Some),
        forall|id: Seq<char>|
            #[trigger] providers@.contains_key(id) ==> is_runtime_provider_for(
                providers@[id],
                id,
                file.providers@[id],
            ),
{
    let mut providers: StrMap<ModelProviderInfo> = StrMap::new();
    let n = file.providers.len();
    let mut i: usize = 0;
    while i < n
        invariant
            n == file.providers.keys().len(),
            i <= n,
            file.providers.keys().no_duplicates(),
            file.providers@.dom() == file.providers.keys().to_set(),
            forall|id: Seq<char>|
                #[trigger] providers@.contains_key(id) <==> ((exists|j: int|
                    0 <= j < i && #[trigger] file.providers.keys()[j] == id)
                    && file.providers@[id].base_url is Some),
            forall|id: Seq<char>|
                #[trigger] providers@.contains_key(id) ==> is_runtime_provider_for(
                    providers@[id],
                    id,
                    file.providers@[id],
                ),
        decreases n - i,
    {
        let provider_id = file.providers.key_at(i);
        let config = file.providers.value_at(i);
        let ghost id = provider_id@;
        proof {
            assert forall|j: int| 0 <= j < i implies #[trigger] file.providers.keys()[j] != id by {
                assert(file.providers.keys()[j] != file.providers.keys()[i as int]);
            }
        }
        if let Some(base_url) = &config.base_url {
            let name = match &config.name {
                Some(n) => n.clone(),
                None => match &config.label {
                    Some(l) => l.clone(),
                    None => provider_id.clone(),
                },
            };
            let info = ModelProviderInfo {
                name,
                base_url: Some(base_url.clone()),
                env_key: clone_opt_string(&config.env_key),
                wire_api: WireApi::Responses,
                requires_openai_auth: config.requires_openai_auth,
            };
            providers.insert(provider_id.clone(), info);
        }
        i = i + 1;
    }
    proof {
        assert forall|id: Seq<char>| #[trigger] file.providers@.contains_key(id) implies (exists|
            j: int,
        | 0 <= j < n && #[trigger] file.providers.keys()[j] == id) by {
            assert(file.providers.keys().to_set().contains(id));
        }
    }
    providers
}

/// The environment assignments `(variable, key)` that `auth.json` asks for,
/// in the order of its providers: one for each provider id that is a known
/// runtime provider with an `env_key`.
pub open spec fn env_assignments_upto(
    auth: CodexiumAuthFile,
    providers: Map<Seq<char>, ModelProviderInfo>,
    k: int,
) -> Seq<(Seq<char>, Seq<char>)>
    decreases k,
{
    if k <= 0 {
        Seq::empty()
    } else {
        let prev = env_assignments_upto(auth, providers, k - 1);
        let id = auth.providers.keys()[k - 1];
        if providers.contains_key(id) && providers[id].env_key is Some {
            prev.push((providers[id].env_key.unwrap()@, auth.providers@[id]@))
        } else {
            prev
        }
    }
}

/// The environment variables to set from `auth.json`: for every provider id
/// with a key whose runtime provider declares an `env_key`, that variable and
/// the key. Keys of unknown providers, or of providers without an `env_key`,
/// are skipped. The caller sets each variable only when it is not already set.
pub fn auth_env_assignments(auth: &CodexiumAuthFile, model_providers: &StrMap<ModelProviderInfo>) -> (r:
    Vec<(String, String)>)
    ensures
        r@.map_values(|p: (String, String)| (p.0@, p.1@)) == env_assignments_upto(
            *auth,
            model_providers@,
            auth.providers.keys().len() as int,
        ),
{
    let mut out: Vec<(String, String)> = Vec::new();
    let n = auth.providers.len();
    let mut i: usize = 0;
    while i < n
        invariant
            n == auth.providers.keys().len(),
            i <= n,
            out@.map_values(|p: (String, String)| (p.0@, p.1@)) == env_assignments_upto(
                *auth,
                model_providers@,
                i as int,
            ),
        decreases n - i,
    {
        let provider_id = auth.providers.key_at(i);
        let api_key = auth.providers.value_at(i);
        let ghost before = out@;
        match model_providers.get(provider_id.as_str()) {
            Some(provider) => {
                if let Some(env_key) = &provider.env_key {
                    out.push((env_key.clone(), api_key.clone()));
                    proof {
                        assert(out@.map_values(|p: (String, String)| (p.0@, p.1@)) =~= before.map_values(
                            |p: (String, String)| (p.0@, p.1@),
                        ).push((env_key@, api_key@)));
                    }
                }
            },
            None => {},
        }
        i = i + 1;
    }
    out
}

/// How tool output is truncated.
#[derive(Clone, Copy, Debug, PartialEq, Eq)]
pub enum TruncationPolicyConfig {
    Bytes(i64),
    Tokens(i64),
}

/// Whether a model is listed in the picker.
#[derive(Clone, Copy, Debug, PartialEq, Eq)]
pub enum ModelVisibility {
    List,
    Hide,
    /// No visibility set.
    Unset,
}

/// The parts of a catalog model that the customization layer reads or sets.
pub struct ModelInfo {
    pub slug: String,
    pub display_name: String,
    pub description: Option<String>,
    pub context_window: Option<i64>,
    pub max_context_window: Option<i64>,
    pub auto_compact_token_limit: Option<i64>,
    pub max_output_tokens: Option<i64>,
    pub truncation_policy: TruncationPolicyConfig,
    pub shell_type: ConfigShellToolType,
    pub visibility: ModelVisibility,
    pub priority: i32,
    pub used_fallback_model_metadata: bool,
    pub is_custom: bool,
    pub provider: Option<String>,
    pub provider_label: Option<String>,
}

/// A catalog model with its text fields as character sequences.
pub struct ModelInfoView {
    pub slug: Seq<char>,
    pub display_name: Seq<char>,
    pub description: Option<Seq<char>>,
    pub context_window: Option<i64>,
    pub max_context_window: Option<i64>,
    pub auto_compact_token_limit: Option<i64>,
    pub max_output_tokens: Option<i64>,
    pub truncation_policy: TruncationPolicyConfig,
    pub shell_type: ConfigShellToolType,
    pub visibility: ModelVisibility,
    pub priority: i32,
    pub used_fallback_model_metadata: bool,
    pub is_custom: bool,
    pub provider: Option<Seq<char>>,
    pub provider_label: Option<Seq<char>>,
}

/// The characters of an optional string.
pub open spec fn opt_text(s: Option<String>) -> Option<Seq<char>> {
    match s {
        Some(t) => Some(t@),
        None => None,
    }
}

impl View for ModelInfo {
    type V = ModelInfoView;

    open spec fn view(&self) -> ModelInfoView {
        ModelInfoView {
            slug: self.slug@,
            display_name: self.display_name@,
            description: opt_text(self.description),
            context_window: self.context_window,
            max_context_window: self.max_context_window,
            auto_compact_token_limit: self.auto_compact_token_limit,
            max_output_tokens: self.max_output_tokens,
            truncation_policy: self.truncation_policy,
            shell_type: self.shell_type,
            visibility: self.visibility,
            priority: self.priority,
            used_fallback_model_metadata: self.used_fallback_model_metadata,
            is_custom: self.is_custom,
            provider: opt_text(self.provider),
            provider_label: opt_text(self.provider_label),
        }
    }
}

/// The views of a list of models.
pub open spec fn model_views(models: Seq<ModelInfo>) -> Seq<ModelInfoView> {
    models.map_values(|m: ModelInfo| m@)
}

/// `value` when it is set, `current` otherwise.
pub open spec fn or_keep<T>(value: Option<T>, current: T) -> T {
    match value {
        Some(v) => v,
        None => current,
    }
}

/// A model with the metadata overrides of `config` applied: label,
/// description, context and token limits, tool-output truncation and shell type.
pub open spec fn with_overrides(m: ModelInfoView, config: CodexiumModelConfig) -> ModelInfoView {
    ModelInfoView {
        display_name: or_keep(opt_text(config.label), m.display_name),
        description: match config.description {
            Some(d) => Some(d@),
            None => m.description,
        },
        context_window: match config.context_window {
            Some(v) => Some(v),
            None => m.context_window,
        },
        max_context_window: match config.max_context_window {
            Some(v) => Some(v),
            None => m.max_context_window,
        },
        auto_compact_token_limit: match config.auto_compact_token_limit {
            Some(v) => Some(v),
            None => m.auto_compact_token_limit,
        },
        max_output_tokens: match config.max_output_tokens {
            Some(v) => Some(v),
            None => m.max_output_tokens,
        },
        truncation_policy: match config.tool_output_token_limit {
            Some(t) => TruncationPolicyConfig::Tokens(t),
            None => m.truncation_policy,
        },
        shell_type: or_keep(config.shell_type, m.shell_type),
        ..m
    }
}

/// A bundled OpenAI model after its codexium override: metadata overrides
/// applied, listed when enabled and hidden otherwise.
pub open spec fn openai_overridden(m: ModelInfoView, config: CodexiumModelConfig) -> ModelInfoView {
    ModelInfoView {
        visibility: if config.enabled {
            ModelVisibility::List
        } else {
            ModelVisibility::Hide
        },
        used_fallback_model_metadata: false,
        ..with_overrides(m, config)
    }
}

/// A custom model built from the generic descriptor `base` (already carrying
/// the model's slug) and its configuration.
pub open spec fn custom_model(
    base: ModelInfoView,
    provider_id: Seq<char>,
    provider_label: Seq<char>,
    config: CodexiumModelConfig,
) -> ModelInfoView {
    ModelInfoView {
        visibility: ModelVisibility::List,
        priority: 10,
        used_fallback_model_metadata: false,
        is_custom: true,
        provider: Some(provider_id),
        provider_label: Some(provider_label),
        ..with_overrides(base, config)
    }
}

fn clone_model_info(m: &ModelInfo) -> (r: ModelInfo)
    ensures
        r@ == m@,
{
    ModelInfo {
        slug: m.slug.clone(),
        display_name: m.display_name.clone(),
        description: clone_opt_string(&m.description),
        context_window: m.context_window,
        max_context_window: m.max_context_window,
        auto_compact_token_limit: m.auto_compact_token_limit,
        max_output_tokens: m.max_output_tokens,
        truncation_policy: m.truncation_policy,
        shell_type: m.shell_type,
        visibility: m.visibility,
        priority: m.priority,
        used_fallback_model_metadata: m.used_fallback_model_metadata,
        is_custom: m.is_custom,
        provider: clone_opt_string(&m.provider),
        provider_label: clone_opt_string(&m.provider_label),
    }
}

fn apply_overrides(m: &mut ModelInfo, config: &CodexiumModelConfig)
    ensures
        final(m)@ == with_overrides(old(m)@, *config),
{
    if let Some(label) = &config.label {
        m.display_name = label.clone();
    }
    if let Some(description) = &config.description {
        m.description = Some(description.clone());
    }
    if let Some(v) = config.context_window {
        m.context_window = Some(v);
    }
    if let Some(v) = config.max_context_window {
        m.max_context_window = Some(v);
    }
    if let Some(v) = config.auto_compact_token_limit {
        m.auto_compact_token_limit = Some(v);
    }
    if let Some(v) = config.max_output_tokens {
        m.max_output_tokens = Some(v);
    }
    if let Some(v) = config.tool_output_token_limit {
        m.truncation_policy = TruncationPolicyConfig::Tokens(v);
    }
    if let Some(v) = config.shell_type {
        m.shell_type = v;
    }
}

/// Builds a custom model from the generic descriptor `base` for its slug,
/// applying the overrides of `models.json` and marking it as a listed custom
/// model of `provider_id`.
pub fn model_info_from_config(
    base: ModelInfo,
    provider_id: &str,
    provider_label: &str,
    config: &CodexiumModelConfig,
) -> (info: ModelInfo)
    ensures
        info@ == custom_model(base@, provider_id@, provider_label@, *config),
{
    let mut info = base;
    apply_overrides(&mut info, config);
    info.visibility = ModelVisibility::List;
    info.priority = 10;
    info.used_fallback_model_metadata = false;
    info.is_custom = true;
    info.provider = Some(provider_id.to_owned());
    info.provider_label = Some(provider_label.to_owned());
    info
}

/// Index of the first model with slug `slug`, or `-1`.
pub open spec fn first_with_slug(models: Seq<ModelInfoView>, slug: Seq<char>) -> int
    decreases models.len(),
{
    if models.len() == 0 {
        -1
    } else if models[0].slug == slug {
        0
    } else {
        let r = first_with_slug(models.drop_first(), slug);
        if r < 0 {
            -1
        } else {
            r + 1
        }
    }
}

proof fn lemma_first_with_slug(models: Seq<ModelInfoView>, slug: Seq<char>)
    ensures
        -1 <= first_with_slug(models, slug) < models.len(),
        first_with_slug(models, slug) >= 0 ==> models[first_with_slug(models, slug)].slug == slug,
        forall|j: int|
            0 <= j < models.len() && (first_with_slug(models, slug) < 0 || j < first_with_slug(
                models,
                slug,
            )) ==> #[trigger] models[j].slug != slug,
    decreases models.len(),
{
    if models.len() > 0 && models[0].slug != slug {
        lemma_first_with_slug(models.drop_first(), slug);
        assert forall|j: int|
            0 <= j < models.len() && (first_with_slug(models, slug) < 0 || j < first_with_slug(
                models,
                slug,
            )) implies #[trigger] models[j].slug != slug by {
            if j > 0 {
                assert(models[j] == models.drop_first()[j - 1]);
            }
        }
    }
}

/// The position of the first model with slug `slug`.
fn find_model(models: &Vec<ModelInfo>, slug: &str) -> (r: Option<usize>)
    ensures
        match r {
            Some(i) => i < models@.len() && i == first_with_slug(model_views(models@), slug@),
            None => first_with_slug(model_views(models@), slug@) == -1,
        },
{
    proof {
        lemma_first_with_slug(model_views(models@), slug@);
    }
    let n = models.len();
    let mut i: usize = 0;
    while i < n
        invariant
            n == models@.len(),
            i <= n,
            forall|j: int| 0 <= j < i ==> models@[j].slug@ != slug@,
            -1 <= first_with_slug(model_views(models@), slug@) < n,
            first_with_slug(model_views(models@), slug@) >= 0 ==> model_views(models@)[first_with_slug(
                model_views(models@),
                slug@,
            )].slug == slug@,
            forall|j: int|
                0 <= j < n && (first_with_slug(model_views(models@), slug@) < 0 || j
                    < first_with_slug(model_views(models@), slug@)) ==> #[trigger] model_views(
                    models@,
                )[j].slug != slug@,
        decreases n - i,
    {
        if str_eq(models[i].slug.as_str(), slug) {
            assert(model_views(models@)[i as int].slug == slug@);
            return Some(i);
        }
        assert(model_views(models@)[i as int].slug != slug@);
        i = i + 1;
    }
    None
}

/// The catalog after applying an OpenAI override: the first model with the
/// slug gets it; without such a model the catalog is unchanged.
pub open spec fn with_openai_override(
    models: Seq<ModelInfoView>,
    slug: Seq<char>,
    config: CodexiumModelConfig,
) -> Seq<ModelInfoView> {
    let i = first_with_slug(models, slug);
    if i >= 0 {
        models.update(i, openai_overridden(models[i], config))
    } else {
        models
    }
}

/// The catalog after adding a custom model: it replaces the first model with
/// its slug, or goes last when there is none.
pub open spec fn with_custom_model(models: Seq<ModelInfoView>, info: ModelInfoView) -> Seq<
    ModelInfoView,
> {
    let i = first_with_slug(models, info.slug);
    if i >= 0 {
        models.update(i, info)
    } else {
        models.push(info)
    }
}

/// Applies a per-model codexium override to a bundled OpenAI model, keyed by
/// its bare slug: metadata overrides are merged in and the model is listed
/// when enabled, hidden otherwise.
pub fn apply_openai_model_override(
    models: &mut Vec<ModelInfo>,
    model_slug: &str,
    config: &CodexiumModelConfig,
)
    ensures
        model_views(final(models)@) == with_openai_override(
            model_views(old(models)@),
            model_slug@,
            *config,
        ),
{
    match find_model(models, model_slug) {
        None => {},
        Some(i) => {
            let mut existing = clone_model_info(&models[i]);
            apply_overrides(&mut existing, config);
            existing.visibility = if config.enabled {
                ModelVisibility::List
            } else {
                ModelVisibility::Hide
            };
            existing.used_fallback_model_metadata = false;
            let ghost before = models@;
            models.set(i, existing);
            proof {
                assert(model_views(models@) =~= model_views(before).update(
                    i as int,
                    openai_overridden(model_views(before)[i as int], *config),
                ));
            }
        },
    }
}

/// `m` shows every metadata setting that `config` makes, each in the field of
/// the same name: the label as display name, the description, the context and
/// token limits, the tool-output limit as a token truncation policy, and the
/// shell type.
pub open spec fn carries_config_metadata(m: ModelInfoView, config: CodexiumModelConfig) -> bool {
    &&& (config.label matches Some(l) ==> m.display_name == l@)
    &&& (config.description matches Some(d) ==> m.description == Some(d@))
    &&& (config.context_window matches Some(v) ==> m.context_window == Some(v))
    &&& (config.max_context_window matches Some(v) ==> m.max_context_window == Some(v))
    &&& (config.auto_compact_token_limit matches Some(v) ==> m.auto_compact_token_limit == Some(v))
    &&& (config.max_output_tokens matches Some(v) ==> m.max_output_tokens == Some(v))
    &&& (config.tool_output_token_limit matches Some(t) ==> m.truncation_policy
        == TruncationPolicyConfig::Tokens(t))
    &&& (config.shell_type matches Some(s) ==> m.shell_type == s)
}

/// A custom model built from a configuration carries every metadata setting
/// of that configuration (a configured description among them), keeps the
/// slug of its descriptor, belongs to its provider and is listed.
pub proof fn custom_model_carries_its_config(
    base: ModelInfoView,
    provider_id: Seq<char>,
    provider_label: Seq<char>,
    config: CodexiumModelConfig,
)
    ensures
        carries_config_metadata(custom_model(base, provider_id, provider_label, config), config),
        custom_model(base, provider_id, provider_label, config).slug == base.slug,
        custom_model(base, provider_id, provider_label, config).provider == Some(provider_id),
        custom_model(base, provider_id, provider_label, config).provider_label == Some(
            provider_label,
        ),
        custom_model(base, provider_id, provider_label, config).is_custom,
        custom_model(base, provider_id, provider_label, config).visibility
            == ModelVisibility::List,
{
}

/// An OpenAI override reaches exactly the first model with its bare slug:
/// that model carries every metadata setting of the configuration (a
/// configured description among them) and is listed when enabled, hidden
/// otherwise; every other model stays as it was, and without such a model the
/// catalog is unchanged.
pub proof fn openai_override_carries_its_config(
    models: Seq<ModelInfoView>,
    slug: Seq<char>,
    config: CodexiumModelConfig,
    i: int,
)
    requires
        0 <= i < models.len(),
        models[i].slug == slug,
        forall|j: int| 0 <= j < i ==> #[trigger] models[j].slug != slug,
    ensures
        with_openai_override(models, slug, config).len() == models.len(),
        carries_config_metadata(with_openai_override(models, slug, config)[i], config),
        with_openai_override(models, slug, config)[i].slug == slug,
        with_openai_override(models, slug, config)[i].visibility == (if config.enabled {
            ModelVisibility::List
        } else {
            ModelVisibility::Hide
        }),
        forall|j: int|
            0 <= j < models.len() && j != i ==> #[trigger] with_openai_override(
                models,
                slug,
                config,
            )[j] == models[j],
{
    lemma_first_with_slug(models, slug);
    assert(first_with_slug(models, slug) == i) by {
        let f = first_with_slug(models, slug);
        if f < 0 || f > i {
            assert(models[i].slug != slug);
        }
        if 0 <= f < i {
            assert(models[f].slug != slug);
        }
    }
}

/// Without a model of that bare slug an OpenAI override leaves the catalog as
/// it was.
pub proof fn openai_override_without_model_keeps_catalog(
    models: Seq<ModelInfoView>,
    slug: Seq<char>,
    config: CodexiumModelConfig,
)
    requires
        forall|j: int| 0 <= j < models.len() ==> #[trigger] models[j].slug != slug,
    ensures
        with_openai_override(models, slug, config) == models,
{
    lemma_first_with_slug(models, slug);
    if first_with_slug(models, slug) >= 0 {
        assert(models[first_with_slug(models, slug)].slug == slug);
    }
}

/// The full slug of a custom model: `<provider>.<model>`.
pub open spec fn full_slug(provider_id: Seq<char>, model_slug: Seq<char>) -> Seq<char> {
    provider_id + seq!['.'] + model_slug
}

/// The label of a provider: its `label`, else its id.
pub open spec fn provider_label_of(id: Seq<char>, config: CodexiumProviderConfig) -> Seq<char> {
    or_keep(opt_text(config.label), id)
}

/// The catalog after the first `k` models of provider `id`.
pub open spec fn catalog_with_provider_models(
    models: Seq<ModelInfoView>,
    fallback: ModelInfoView,
    id: Seq<char>,
    config: CodexiumProviderConfig,
    k: int,
) -> Seq<ModelInfoView>
    decreases k,
{
    if k <= 0 {
        models
    } else {
        let prev = catalog_with_provider_models(models, fallback, id, config, k - 1);
        let slug = config.models.keys()[k - 1];
        let mc = config.models@[slug];
        if id == OPENAI_PROVIDER_ID@ {
            with_openai_override(prev, slug, mc)
        } else {
            with_custom_model(
                prev,
                custom_model(
                    ModelInfoView { slug: full_slug(id, slug), ..fallback },
                    id,
                    provider_label_of(id, config),
                    mc,
                ),
            )
        }
    }
}

/// The catalog after the first `k` providers of `models.json`.
pub open spec fn catalog_with_providers(
    models: Seq<ModelInfoView>,
    fallback: ModelInfoView,
    file: CodexiumModelsFile,
    k: int,
) -> Seq<ModelInfoView>
    decreases k,
{
    if k <= 0 {
        models
    } else {
        let id = file.providers.keys()[k - 1];
        let config = file.providers@[id];
        catalog_with_provider_models(
            catalog_with_providers(models, fallback, file, k - 1),
            fallback,
            id,
            config,
            config.models.keys().len() as int,
        )
    }
}

/// Merges the providers of `models.json` into a model catalog, provider by
/// provider and model by model. Models of the read-only `openai` provider
/// override the bundled model with the same bare slug; other models are
/// custom models addressed as `<provider>.<model>`, built from `fallback` (the
/// generic descriptor for an unknown model) and replacing any model with the
/// same slug.
pub fn build_model_catalog(
    file: &CodexiumModelsFile,
    models: Vec<ModelInfo>,
    fallback: &ModelInfo,
) -> (catalog: Vec<ModelInfo>)
    ensures
        model_views(catalog@) == catalog_with_providers(
            model_views(models@),
            fallback@,
            *file,
            file.providers.keys().len() as int,
        ),
{
    let mut models = models;
    let ghost initial = model_views(models@);
    let n = file.providers.len();
    let mut i: usize = 0;
    proof {
        reveal_strlit("openai");
    }
    while i < n
        invariant
            n == file.providers.keys().len(),
            i <= n,
            model_views(models@) == catalog_with_providers(initial, fallback@, *file, i as int),
        decreases n - i,
    {
        let provider_id = file.providers.key_at(i);
        let config = file.providers.value_at(i);
        let is_openai = str_eq(provider_id.as_str(), OPENAI_PROVIDER_ID);
        let provider_label = match &config.label {
            Some(l) => l.clone(),
            None => provider_id.clone(),
        };
        let ghost start = model_views(models@);
        let m = config.models.len();
        let mut j: usize = 0;
        while j < m
            invariant
                m == config.models.keys().len(),
                j <= m,
                is_openai == (provider_id@ == OPENAI_PROVIDER_ID@),
                provider_label@ == provider_label_of(provider_id@, *config),
                model_views(models@) == catalog_with_provider_models(
                    start,
                    fallback@,
                    provider_id@,
                    *config,
                    j as int,
                ),
            decreases m - j,
        {
            let model_slug = config.models.key_at(j);
            let model_config = config.models.value_at(j);
            if is_openai {
                apply_openai_model_override(&mut models, model_slug.as_str(), model_config);
            } else {
                let mut slug = concat_strs(provider_id.as_str(), ".");
                slug.append(model_slug.as_str());
                proof {
                    reveal_strlit(".");
                }
                let mut base = clone_model_info(fallback);
                base.slug = slug;
                let info = model_info_from_config(base, provider_id.as_str(), provider_label.as_str(), model_config);
                let ghost before = models@;
                match find_model(&models, info.slug.as_str()) {
                    Some(k) => {
                        models.set(k, info);
                        proof {
                            assert(model_views(models@) =~= model_views(before).update(k as int, info@));
                        }
                    },
                    None => {
                        models.push(info);
                        proof {
                            assert(model_views(models@) =~= model_views(before).push(info@));
                        }
                    },
                }
                proof {
                    assert(info@.slug == full_slug(provider_id@, model_slug@));
                }
            }
            j = j + 1;
        }
        i = i + 1;
    }
    models
}

/// The parts of a model picker preset that the customization layer reads or sets.
pub struct ModelPreset {
    pub id: String,
    pub model: String,
    pub display_name: String,
    pub description: String,
    pub is_default: bool,
    pub show_in_picker: bool,
    pub supported_in_api: bool,
    pub is_custom: bool,
    pub provider: Option<String>,
    pub provider_label: Option<String>,
}

/// A preset with its text fields as character sequences.
pub struct ModelPresetView {
    pub id: Seq<char>,
    pub model: Seq<char>,
    pub display_name: Seq<char>,
    pub description: Seq<char>,
    pub is_default: bool,
    pub show_in_picker: bool,
    pub supported_in_api: bool,
    pub is_custom: bool,
    pub provider: Option<Seq<char>>,
    pub provider_label: Option<Seq<char>>,
}

impl View for ModelPreset {
    type V = ModelPresetView;

    open spec fn view(&self) -> ModelPresetView {
        ModelPresetView {
            id: self.id@,
            model: self.model@,
            display_name: self.display_name@,
            description: self.description@,
            is_default: self.is_default,
            show_in_picker: self.show_in_picker,
            supported_in_api: self.supported_in_api,
            is_custom: self.is_custom,
            provider: opt_text(self.provider),
            provider_label: opt_text(self.provider_label),
        }
    }
}

/// The views of a list of presets.
pub open spec fn preset_views(presets: Seq<ModelPreset>) -> Seq<ModelPresetView> {
    presets.map_values(|p: ModelPreset| p@)
}

/// The picker preset of a catalog model: keyed by its slug, described by its
/// description (or nothing), shown when the model is listed, not the default.
pub open spec fn preset_of_model(m: ModelInfoView) -> ModelPresetView {
    ModelPresetView {
        id: m.slug,
        model: m.slug,
        display_name: m.display_name,
        description: or_keep(m.description, Seq::<char>::empty()),
        is_default: false,
        show_in_picker: m.visibility == ModelVisibility::List,
        supported_in_api: true,
        is_custom: m.is_custom,
        provider: m.provider,
        provider_label: m.provider_label,
    }
}

/// Builds the picker preset of a catalog model.
pub fn preset_from_model_info(info: ModelInfo) -> (p: ModelPreset)
    ensures
        p@ == preset_of_model(info@),
{
    let show = match info.visibility {
        ModelVisibility::List => true,
        _ => false,
    };
    let description = match info.description {
        Some(d) => d,
        None => String::new(),
    };
    ModelPreset {
        id: info.slug.clone(),
        model: info.slug,
        display_name: info.display_name,
        description,
        is_default: false,
        show_in_picker: show,
        supported_in_api: true,
        is_custom: info.is_custom,
        provider: info.provider,
        provider_label: info.provider_label,
    }
}

/// The (enabled, label, description) codexium keeps for a model config.
pub open spec fn override_of(m: CodexiumModelConfig) -> (bool, Option<Seq<char>>, Option<Seq<char>>) {
    (m.enabled, opt_text(m.label), opt_text(m.description))
}

/// The codexium config of a preset, if codexium manages it: a custom model
/// `<provider>.<slug>` of a non-OpenAI provider, else a bundled OpenAI model
/// by its bare slug.
pub open spec fn preset_override(file: CodexiumModelsFile, p: ModelPresetView) -> Option<
    (bool, Option<Seq<char>>, Option<Seq<char>>),
> {
    if p.provider is Some && p.provider.unwrap() != OPENAI_PROVIDER_ID@ {
        let id = p.provider.unwrap();
        let slug = stripped(p.model, id + seq!['.']);
        if file.providers@.contains_key(id) && file.providers@[id].models@.contains_key(slug) {
            Some(override_of(file.providers@[id].models@[slug]))
        } else {
            None
        }
    } else if file.providers@.contains_key(OPENAI_PROVIDER_ID@)
        && file.providers@[OPENAI_PROVIDER_ID@].models@.contains_key(p.model) {
        Some(override_of(file.providers@[OPENAI_PROVIDER_ID@].models@[p.model]))
    } else {
        None
    }
}

/// Whether a preset belongs to a codexium custom provider (a non-OpenAI provider id).
pub open spec fn is_custom_preset(p: ModelPresetView) -> bool {
    p.provider is Some && p.provider.unwrap() != OPENAI_PROVIDER_ID@
}

/// True when a preset belongs to a codexium-managed custom provider.
pub fn is_codexium_custom(preset: &ModelPreset) -> (r: bool)
    ensures
        r == is_custom_preset(preset@),
{
    proof {
        reveal_strlit("openai");
    }
    match &preset.provider {
        Some(provider_id) => !str_eq(provider_id.as_str(), OPENAI_PROVIDER_ID),
        None => false,
    }
}

/// Returns (enabled, label, description) of a preset's codexium config, or
/// `None` when codexium does not manage the preset.
pub fn model_override(file: &CodexiumModelsFile, preset: &ModelPreset) -> (r: Option<
    (bool, Option<String>, Option<String>),
>)
    ensures
        match r {
            Some(t) => preset_override(*file, preset@) == Some((t.0, opt_text(t.1), opt_text(t.2))),
            None => preset_override(*file, preset@) is None,
        },
{
    proof {
        reveal_strlit("openai");
        reveal_strlit(".");
    }
    if let Some(provider_id) = &preset.provider {
        if !str_eq(provider_id.as_str(), OPENAI_PROVIDER_ID) {
            let prefix = concat_strs(provider_id.as_str(), ".");
            let slug = strip_prefix_or_self(preset.model.as_str(), prefix.as_str());
            assert(prefix@ == provider_id@ + seq!['.']);
            assert(slug@ == stripped(preset@.model, provider_id@ + seq!['.']));
            assert(preset@.provider == Some(provider_id@));
            assert(provider_id@ != OPENAI_PROVIDER_ID@);
            return match file.providers.get(provider_id.as_str()) {
                Some(provider) => match provider.models.get(slug.as_str()) {
                    Some(m) => Some(
                        (m.enabled, clone_opt_string(&m.label), clone_opt_string(&m.description)),
                    ),
                    None => None,
                },
                None => None,
            };
        }
    }
    match file.providers.get(OPENAI_PROVIDER_ID) {
        Some(provider) => match provider.models.get(preset.model.as_str()) {
            Some(m) => Some((m.enabled, clone_opt_string(&m.label), clone_opt_string(&m.description))),
            None => None,
        },
        None => None,
    }
}

/// A preset after re-applying codexium state: a managed preset takes the
/// enable state and any label/description override; a custom preset that is no
/// longer configured is hidden; any other preset is unchanged.
pub open spec fn refreshed_preset(file: CodexiumModelsFile, p: ModelPresetView) -> ModelPresetView {
    match preset_override(file, p) {
        Some((enabled, label, description)) => ModelPresetView {
            show_in_picker: enabled,
            display_name: or_keep(label, p.display_name),
            description: or_keep(description, p.description),
            ..p
        },
        None => if is_custom_preset(p) {
            ModelPresetView { show_in_picker: false, ..p }
        } else {
            p
        },
    }
}

/// The preset of a custom model built from `fallback` and its configuration.
pub open spec fn custom_preset_of(
    fallback: ModelInfoView,
    id: Seq<char>,
    label: Seq<char>,
    slug: Seq<char>,
    config: CodexiumModelConfig,
) -> ModelPresetView {
    let m = custom_model(ModelInfoView { slug: full_slug(id, slug), ..fallback }, id, label, config);
    ModelPresetView {
        is_custom: true,
        provider: Some(id),
        provider_label: Some(label),
        ..preset_of_model(m)
    }
}

/// Builds the preset of a codexium custom model from its stored config.
pub fn codexium_custom_model_preset(
    fallback: &ModelInfo,
    provider_id: &str,
    provider_label: &str,
    model_slug: &str,
    config: &CodexiumModelConfig,
) -> (p: ModelPreset)
    ensures
        p@ == custom_preset_of(fallback@, provider_id@, provider_label@, model_slug@, *config),
{
    let mut slug = concat_strs(provider_id, ".");
    slug.append(model_slug);
    proof {
        reveal_strlit(".");
    }
    let mut base = clone_model_info(fallback);
    base.slug = slug;
    assert(base.slug@ =~= full_slug(provider_id@, model_slug@));
    assert(base@ == (ModelInfoView { slug: full_slug(provider_id@, model_slug@), ..fallback@ }));
    let info = model_info_from_config(base, provider_id, provider_label, config);
    let mut preset = preset_from_model_info(info);
    preset.is_custom = true;
    preset.provider = Some(provider_id.to_owned());
    preset.provider_label = Some(provider_label.to_owned());
    preset
}

/// The presets added for the first `k` models of provider `id`, with the set
/// of preset models present so far.
pub open spec fn added_for_provider(
    state: (Seq<ModelPresetView>, Set<Seq<char>>),
    fallback: ModelInfoView,
    id: Seq<char>,
    config: CodexiumProviderConfig,
    k: int,
) -> (Seq<ModelPresetView>, Set<Seq<char>>)
    decreases k,
{
    if k <= 0 {
        state
    } else {
        let (out, present) = added_for_provider(state, fallback, id, config, k - 1);
        let slug = config.models.keys()[k - 1];
        let mc = config.models@[slug];
        if mc.enabled && !present.contains(full_slug(id, slug)) {
            let p = custom_preset_of(fallback, id, provider_label_of(id, config), slug, mc);
            (out.push(p), present.insert(p.model))
        } else {
            (out, present)
        }
    }
}

/// The presets added for the first `k` providers (the `openai` provider adds none).
pub open spec fn added_for_providers(
    state: (Seq<ModelPresetView>, Set<Seq<char>>),
    fallback: ModelInfoView,
    file: CodexiumModelsFile,
    k: int,
) -> (Seq<ModelPresetView>, Set<Seq<char>>)
    decreases k,
{
    if k <= 0 {
        state
    } else {
        let prev = added_for_providers(state, fallback, file, k - 1);
        let id = file.providers.keys()[k - 1];
        if id == OPENAI_PROVIDER_ID@ {
            prev
        } else {
            let config = file.providers@[id];
            added_for_provider(prev, fallback, id, config, config.models.keys().len() as int)
        }
    }
}

/// The models of the presets codexium manages.
pub open spec fn managed_models(file: CodexiumModelsFile, presets: Seq<ModelPresetView>) -> Set<
    Seq<char>,
> {
    Set::new(
        |m: Seq<char>|
            exists|i: int|
                0 <= i < presets.len() && presets[i].model == m && (#[trigger] preset_override(
                    file,
                    presets[i],
                )) is Some,
    )
}

/// The position of the first preset shown in the picker from `i` on, or `0`
/// when none is shown.
pub open spec fn first_visible_from(v: Seq<ModelPresetView>, i: int) -> int
    decreases v.len() - i,
{
    if i < 0 || i >= v.len() {
        0
    } else if v[i].show_in_picker {
        i
    } else {
        first_visible_from(v, i + 1)
    }
}

/// The presets with the default re-marked: the first preset shown in the
/// picker (or the first preset when none is shown) is the default, no other.
pub open spec fn marked_default(v: Seq<ModelPresetView>) -> Seq<ModelPresetView> {
    Seq::new(
        v.len(),
        |i: int| ModelPresetView { is_default: i == first_visible_from(v, 0), ..v[i] },
    )
}

proof fn lemma_first_visible(v: Seq<ModelPresetView>, i: int)
    requires
        0 <= i <= v.len(),
    ensures
        (exists|j: int| i <= j < v.len() && v[j].show_in_picker) ==> {
            let f = first_visible_from(v, i);
            &&& i <= f < v.len()
            &&& v[f].show_in_picker
            &&& forall|j: int| i <= j < f ==> !v[j].show_in_picker
        },
        !(exists|j: int| i <= j < v.len() && v[j].show_in_picker) ==> first_visible_from(v, i) == 0,
    decreases v.len() - i,
{
    if i < v.len() {
        lemma_first_visible(v, i + 1);
        if !v[i].show_in_picker {
            if exists|j: int| i <= j < v.len() && v[j].show_in_picker {
                let j = choose|j: int| i <= j < v.len() && v[j].show_in_picker;
                assert(i + 1 <= j);
            }
        }
    }
}

/// Re-marks the default preset from the picker visibility: the first preset
/// shown in the picker becomes the default (the first preset when none is
/// shown), and no other preset is.
pub fn mark_default_by_picker_visibility(presets: Vec<ModelPreset>) -> (out: Vec<ModelPreset>)
    ensures
        preset_views(out@) == marked_default(preset_views(presets@)),
{
    let ghost v = preset_views(presets@);
    let n = presets.len();
    let mut first: usize = 0;
    let mut k: usize = 0;
    let mut found = false;
    while k < n && !found
        invariant
            n == presets@.len(),
            v == preset_views(presets@),
            k <= n,
            found ==> first < n && presets@[first as int].show_in_picker && first + 1 == k,
            forall|j: int| 0 <= j < k && !(found && j == first) ==> !presets@[j].show_in_picker,
            !found ==> first == 0,
        decreases n - k,
    {
        if presets[k].show_in_picker {
            first = k;
            found = true;
        }
        k = k + 1;
    }
    proof {
        lemma_first_visible(v, 0);
        if found {
            assert(v[first as int].show_in_picker);
            assert forall|j: int| 0 <= j < first implies !v[j].show_in_picker by {
                assert(!presets@[j].show_in_picker);
            }
            let f = first_visible_from(v, 0);
            if f < first {
                assert(!v[f].show_in_picker);
            }
            if f > first {
                assert(!v[first as int].show_in_picker);
            }
        } else {
            assert(!(exists|j: int| 0 <= j < v.len() && v[j].show_in_picker));
        }
        assert(first == first_visible_from(v, 0));
    }
    let mut out: Vec<ModelPreset> = Vec::new();
    let mut i: usize = 0;
    for preset in it: presets
        invariant
            preset_views(it.seq()) == v,
            n == v.len(),
            i == it.index(),
            first == first_visible_from(v, 0),
            preset_views(out@) == marked_default(v).subrange(0, i as int),
    {
        let mut preset = preset;
        proof {
            assert(i < n);
            assert(preset@ == v[i as int]);
        }
        preset.is_default = i == first;
        let ghost before = out@;
        out.push(preset);
        proof {
            assert(preset_views(out@) =~= preset_views(before).push(preset@));
            assert(marked_default(v).subrange(0, i + 1) =~= marked_default(v).subrange(0, i as int).push(
                marked_default(v)[i as int],
            ));
            assert(preset@ == marked_default(v)[i as int]);
        }
        i = i + 1;
    }
    proof {
        assert(marked_default(v).subrange(0, v.len() as int) =~= marked_default(v));
    }
    out
}

/// A preset `<provider>.<model>` of a configured non-OpenAI provider and model
/// is managed by codexium.
proof fn lemma_configured_preset_is_managed(
    file: CodexiumModelsFile,
    presets: Seq<ModelPresetView>,
    id: Seq<char>,
    slug: Seq<char>,
    i: int,
)
    requires
        id != OPENAI_PROVIDER_ID@,
        file.providers@.contains_key(id),
        file.providers@[id].models@.contains_key(slug),
        0 <= i < presets.len(),
        presets[i].model == full_slug(id, slug),
        presets[i].provider == Some(id),
    ensures
        managed_models(file, presets).contains(full_slug(id, slug)),
{
    let prefix = id + seq!['.'];
    assert(presets[i].model.subrange(0, prefix.len() as int) =~= prefix);
    assert(stripped(presets[i].model, prefix) =~= slug);
    assert(preset_override(file, presets[i]) is Some);
}

/// Adding the models of one provider adds nothing when every enabled model of
/// it already has its full slug among the present preset models.
proof fn lemma_nothing_added_for_provider(
    state: (Seq<ModelPresetView>, Set<Seq<char>>),
    fallback: ModelInfoView,
    id: Seq<char>,
    config: CodexiumProviderConfig,
    k: int,
)
    requires
        k <= config.models.keys().len(),
        forall|j: int|
            0 <= j < k && (#[trigger] config.models@[config.models.keys()[j]]).enabled
                ==> state.1.contains(full_slug(id, config.models.keys()[j])),
    ensures
        added_for_provider(state, fallback, id, config, k) == state,
    decreases k,
{
    if k > 0 {
        lemma_nothing_added_for_provider(state, fallback, id, config, k - 1);
        let slug = config.models.keys()[k - 1];
        assert(config.models@[slug].enabled ==> state.1.contains(full_slug(id, slug)));
    }
}

/// Adding the models of the first `k` providers adds nothing when every
/// enabled model of a non-OpenAI provider among them already has its full slug
/// among the present preset models.
proof fn lemma_nothing_added_for_providers(
    state: (Seq<ModelPresetView>, Set<Seq<char>>),
    fallback: ModelInfoView,
    file: CodexiumModelsFile,
    k: int,
)
    requires
        k <= file.providers.keys().len(),
        forall|p: int, j: int|
            0 <= p < k && file.providers.keys()[p] != OPENAI_PROVIDER_ID@ && 0 <= j
                < file.providers@[file.providers.keys()[p]].models.keys().len() && (#[trigger] file.providers@[file.providers.keys()[p]].models@[file.providers@[file.providers.keys()[p]].models.keys()[j]]).enabled
                ==> state.1.contains(
                full_slug(
                    file.providers.keys()[p],
                    file.providers@[file.providers.keys()[p]].models.keys()[j],
                ),
            ),
    ensures
        added_for_providers(state, fallback, file, k) == state,
    decreases k,
{
    if k > 0 {
        lemma_nothing_added_for_providers(state, fallback, file, k - 1);
        let id = file.providers.keys()[k - 1];
        if id != OPENAI_PROVIDER_ID@ {
            let config = file.providers@[id];
            assert forall|j: int|
                0 <= j < config.models.keys().len() && (#[trigger] config.models@[config.models.keys()[j]]).enabled
                    implies state.1.contains(full_slug(id, config.models.keys()[j])) by {
                let p = k - 1;
                assert(file.providers@[file.providers.keys()[p]].models@[file.providers@[file.providers.keys()[p]].models.keys()[j]].enabled);
            }
            lemma_nothing_added_for_provider(
                state,
                fallback,
                id,
                config,
                config.models.keys().len() as int,
            );
        }
    }
}

/// A configured custom model is added to the picker only when no preset for
/// its full slug `<provider>.<model>` is present yet: when every enabled
/// model of every non-OpenAI provider already has its preset, re-applying
/// `models.json` gives exactly as many presets as it was given, each for the
/// model of the preset at its position, so no model is listed twice when the
/// given presets are for distinct models.
pub proof fn configured_models_with_presets_are_not_added_again(
    file: CodexiumModelsFile,
    presets: Seq<ModelPresetView>,
    fallback: ModelInfoView,
)
    requires
        forall|id: Seq<char>, slug: Seq<char>|
            #![trigger file.providers@[id].models@[slug]]
            file.providers@.contains_key(id) && id != OPENAI_PROVIDER_ID@
                && file.providers@[id].models@.contains_key(slug)
                && file.providers@[id].models@[slug].enabled ==> exists|i: int|
                0 <= i < presets.len() && presets[i].model == full_slug(id, slug)
                    && presets[i].provider == Some(id),
    ensures
        ({
            let out = marked_default(
                added_for_providers(
                    (
                        presets.map_values(|p: ModelPresetView| refreshed_preset(file, p)),
                        managed_models(file, presets),
                    ),
                    fallback,
                    file,
                    file.providers.keys().len() as int,
                ).0,
            );
            &&& out.len() == presets.len()
            &&& forall|i: int| 0 <= i < presets.len() ==> #[trigger] out[i].model == presets[i].model
            &&& (forall|i: int, j: int|
                0 <= i < j < presets.len() ==> presets[i].model != presets[j].model) ==> forall|
                i: int,
                j: int,
            | 0 <= i < j < presets.len() ==> #[trigger] out[i].model != #[trigger] out[j].model
        }),
{
    let state = (
        presets.map_values(|p: ModelPresetView| refreshed_preset(file, p)),
        managed_models(file, presets),
    );
    assert forall|p: int, j: int|
        0 <= p < file.providers.keys().len() && file.providers.keys()[p] != OPENAI_PROVIDER_ID@ && 0 <= j
            < file.providers@[file.providers.keys()[p]].models.keys().len() && (#[trigger] file.providers@[file.providers.keys()[p]].models@[file.providers@[file.providers.keys()[p]].models.keys()[j]]).enabled
            implies state.1.contains(
            full_slug(
                file.providers.keys()[p],
                file.providers@[file.providers.keys()[p]].models.keys()[j],
            ),
        ) by {
        let id = file.providers.keys()[p];
        file.providers.lemma_key_in_view(p);
        let models = file.providers@[id].models;
        let slug = models.keys()[j];
        models.lemma_key_in_view(j);
        assert(file.providers@[id].models@[slug].enabled);
        let i = choose|i: int|
            0 <= i < presets.len() && presets[i].model == full_slug(id, slug)
                && presets[i].provider == Some(id);
        lemma_configured_preset_is_managed(file, presets, id, slug, i);
    }
    lemma_nothing_added_for_providers(state, fallback, file, file.providers.keys().len() as int);
}

/// Re-applies `models.json` to the picker presets: managed presets take their
/// enable state and label/description overrides, custom presets no longer
/// configured are hidden, enabled custom models without a preset get one
/// (appended, provider by provider), and the default is re-marked from the
/// picker visibility.
pub fn apply_codexium_visibility(
    file: &CodexiumModelsFile,
    presets: Vec<ModelPreset>,
    fallback: &ModelInfo,
) -> (out: Vec<ModelPreset>)
    ensures
        preset_views(out@) == marked_default(
            added_for_providers(
                (
                    preset_views(presets@).map_values(
                        |p: ModelPresetView| refreshed_preset(*file, p),
                    ),
                    managed_models(*file, preset_views(presets@)),
                ),
                fallback@,
                *file,
                file.providers.keys().len() as int,
            ).0,
        ),
{
    let ghost input = preset_views(presets@);
    let mut present: StrMap<()> = StrMap::new();
    let mut out: Vec<ModelPreset> = Vec::new();
    proof {
        reveal_strlit("openai");
    }
    for preset in it: presets
        invariant
            model_views(Seq::<ModelInfo>::empty()) == Seq::<ModelInfoView>::empty(),
            preset_views(it.seq()) == input,
            preset_views(out@) == input.subrange(0, it.index()).map_values(
                |p: ModelPresetView| refreshed_preset(*file, p),
            ),
            present@.dom() == managed_models(*file, input.subrange(0, it.index())),
    {
        let ghost i = it.index();
        let ghost before = out@;
        let mut preset = preset;
        let ghost pv = preset@;
        proof {
            assert(pv == input[i]);
        }
        match model_override(file, &preset) {
            Some((enabled, label, description)) => {
                preset.show_in_picker = enabled;
                if let Some(label) = label {
                    preset.display_name = label;
                }
                if let Some(description) = description {
                    preset.description = description;
                }
                let key = preset.model.clone();
                present.insert(key, ());
            },
            None => {
                if is_codexium_custom(&preset) {
                    preset.show_in_picker = false;
                }
            },
        }
        out.push(preset);
        proof {
            let next = input.subrange(0, i + 1);
            assert(next =~= input.subrange(0, i).push(pv));
            assert(preset_views(out@) =~= preset_views(before).push(refreshed_preset(*file, pv)));
            assert(next.map_values(|p: ModelPresetView| refreshed_preset(*file, p)) =~= input.subrange(
                0,
                i,
            ).map_values(|p: ModelPresetView| refreshed_preset(*file, p)).push(
                refreshed_preset(*file, pv),
            ));
            assert forall|m: Seq<char>|
                managed_models(*file, next).contains(m) <==> (managed_models(
                    *file,
                    input.subrange(0, i),
                ).contains(m) || (m == pv.model && preset_override(*file, pv) is Some)) by {
                if managed_models(*file, next).contains(m) {
                    let j = choose|j: int|
                        0 <= j < next.len() && next[j].model == m && (#[trigger] preset_override(
                            *file,
                            next[j],
                        )) is Some;
                    if j < i {
                        assert(input.subrange(0, i)[j] == next[j]);
                    }
                }
                if managed_models(*file, input.subrange(0, i)).contains(m) {
                    let j = choose|j: int|
                        0 <= j < i && input.subrange(0, i)[j].model == m && (#[trigger] preset_override(
                            *file,
                            input.subrange(0, i)[j],
                        )) is Some;
                    assert(next[j] == input.subrange(0, i)[j]);
                }
                if m == pv.model && preset_override(*file, pv) is Some {
                    assert(next[i] == pv);
                }
            }
            assert(present@.dom() =~= managed_models(*file, next));
        }
    }
    proof {
        assert(input.subrange(0, input.len() as int) =~= input);
    }
    let ghost start = (preset_views(out@), present@.dom());
    let n = file.providers.len();
    let mut i: usize = 0;
    while i < n
        invariant
            n == file.providers.keys().len(),
            i <= n,
            (preset_views(out@), present@.dom()) == added_for_providers(start, fallback@, *file, i as int),
        decreases n - i,
    {
        let provider_id = file.providers.key_at(i);
        let provider = file.providers.value_at(i);
        if !str_eq(provider_id.as_str(), OPENAI_PROVIDER_ID) {
            let provider_label = match &provider.label {
                Some(l) => l.clone(),
                None => provider_id.clone(),
            };
            let ghost pstart = (preset_views(out@), present@.dom());
            let m = provider.models.len();
            let mut j: usize = 0;
            while j < m
                invariant
                    m == provider.models.keys().len(),
                    j <= m,
                    provider_label@ == provider_label_of(provider_id@, *provider),
                    (preset_views(out@), present@.dom()) == added_for_provider(
                        pstart,
                        fallback@,
                        provider_id@,
                        *provider,
                        j as int,
                    ),
                decreases m - j,
            {
                let model_slug = provider.models.key_at(j);
                let config = provider.models.value_at(j);
                let mut full = concat_strs(provider_id.as_str(), ".");
                full.append(model_slug.as_str());
                proof {
                    reveal_strlit(".");
                    assert(full@ =~= full_slug(provider_id@, model_slug@));
                }
                let ghost prev_present = present@.dom();
                let ghost prev_out = preset_views(out@);
                if config.enabled && !present.contains_key(full.as_str()) {
                    let preset = codexium_custom_model_preset(
                        fallback,
                        provider_id.as_str(),
                        provider_label.as_str(),
                        model_slug.as_str(),
                        config,
                    );
                    let key = preset.model.clone();
                    present.insert(key, ());
                    let ghost before = out@;
                    out.push(preset);
                    proof {
                        assert(preset_views(out@) =~= preset_views(before).push(preset@));
                        assert(present@.dom() =~= prev_present.insert(preset@.model));
                    }
                }
                proof {
                    let (o, pr) = added_for_provider(pstart, fallback@, provider_id@, *provider, j as int);
                    assert(o == prev_out && pr == prev_present);
                }
                j = j + 1;
            }
        }
        i = i + 1;
    }
    mark_default_by_picker_visibility(out)
}

} // verus!
