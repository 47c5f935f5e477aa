//! The `codexium/*` request handling of the app server, as functions from the
//! loaded files and the request to the response and the files to write back.

use vstd::prelude::*;

use crate::codexium::{
    is_codexium_file, CodexiumModelConfig, CodexiumModelsFile, CodexiumProviderConfig, ModelInfo,
    AUTH_FILE_NAME, MODELS_FILE_NAME, OPENAI_PROVIDER_ID,
};
use crate::protocol::{
    CodexiumModelSettings, CodexiumModelsReadResponse, CodexiumModelsWriteParams,
    CodexiumProviderSettings,
};
use crate::str_map::StrMap;
use crate::text::str_eq;

verus! {

/// The slug of the bundled model that is never offered as an OpenAI model.
pub const AUTO_REVIEW_MODEL_SLUG: &'static str = "codex-auto-review";

/// The `codexium/*` request processor of one Codex home.
pub struct CodexiumRequestProcessor {
    pub codex_home: String,
}

/// An error answered to a `codexium/*` request.
pub struct CodexiumRequestError {
    pub message: String,
}

/// The wire settings of a stored model config.
pub open spec fn settings_of_model(c: CodexiumModelConfig) -> CodexiumModelSettings {
    CodexiumModelSettings {
        enabled: c.enabled,
        label: c.label,
        description: c.description,
        context_window: c.context_window,
        max_context_window: c.max_context_window,
        auto_compact_token_limit: c.auto_compact_token_limit,
        max_output_tokens: c.max_output_tokens,
        tool_output_token_limit: c.tool_output_token_limit,
    }
}

/// The stored config of wire model settings (no shell type).
pub open spec fn config_of_settings(s: CodexiumModelSettings) -> CodexiumModelConfig {
    CodexiumModelConfig {
        enabled: s.enabled,
        label: s.label,
        description: s.description,
        context_window: s.context_window,
        max_context_window: s.max_context_window,
        auto_compact_token_limit: s.auto_compact_token_limit,
        max_output_tokens: s.max_output_tokens,
        tool_output_token_limit: s.tool_output_token_limit,
        shell_type: None,
    }
}

/// `s` carries the settings of stored provider `p` (everything but `name`).
pub open spec fn is_settings_of(s: CodexiumProviderSettings, p: CodexiumProviderConfig) -> bool {
    &&& s.label == p.label
    &&& s.base_url == p.base_url
    &&& s.env_key == p.env_key
    &&& s.wire_api == p.wire_api
    &&& s.requires_openai_auth == p.requires_openai_auth
    &&& s.readonly == p.readonly
    &&& s.provider_type == p.provider_type
    &&& s.icon == p.icon
    &&& s.models@ == p.models@.map_values(|m: CodexiumModelConfig| settings_of_model(m))
}

/// `p` stores wire provider settings `s` (with no `name`).
pub open spec fn is_config_of(p: CodexiumProviderConfig, s: CodexiumProviderSettings) -> bool {
    &&& p.label == s.label
    &&& p.base_url == s.base_url
    &&& p.env_key == s.env_key
    &&& p.wire_api == s.wire_api
    &&& p.requires_openai_auth == s.requires_openai_auth
    &&& p.readonly == s.readonly
    &&& p.provider_type == s.provider_type
    &&& p.icon == s.icon
    &&& p.name is None
    &&& p.models@ == s.models@.map_values(|m: CodexiumModelSettings| config_of_settings(m))
}

fn settings_from_config(c: CodexiumModelConfig) -> (s: CodexiumModelSettings)
    ensures
        s == settings_of_model(c),
{
    CodexiumModelSettings {
        enabled: c.enabled,
        label: c.label,
        description: c.description,
        context_window: c.context_window,
        max_context_window: c.max_context_window,
        auto_compact_token_limit: c.auto_compact_token_limit,
        max_output_tokens: c.max_output_tokens,
        tool_output_token_limit: c.tool_output_token_limit,
    }
}

fn config_from_settings(s: CodexiumModelSettings) -> (c: CodexiumModelConfig)
    ensures
        c == config_of_settings(s),
{
    CodexiumModelConfig {
        enabled: s.enabled,
        label: s.label,
        description: s.description,
        context_window: s.context_window,
        max_context_window: s.max_context_window,
        auto_compact_token_limit: s.auto_compact_token_limit,
        max_output_tokens: s.max_output_tokens,
        tool_output_token_limit: s.tool_output_token_limit,
        shell_type: None,
    }
}

/// Converts stored model configs to their wire settings.
fn model_settings_map(models: StrMap<CodexiumModelConfig>) -> (r: StrMap<CodexiumModelSettings>)
    ensures
        r@ == models@.map_values(|m: CodexiumModelConfig| settings_of_model(m)),
{
    let n = models.len();
    let ghost keys = models.keys();
    let ghost src = models@;
    let entries = models.into_entries();
    let mut out: StrMap<CodexiumModelSettings> = StrMap::new();
    for entry in it: entries
        invariant
            it.seq().len() == n,
            n == keys.len(),
            keys.no_duplicates(),
            src.dom() == keys.to_set(),
            forall|i: int|
                0 <= i < it.seq().len() ==> (#[trigger] it.seq()[i]).0@ == keys[i] && it.seq()[i].1
                    == src[keys[i]],
            out@ == Map::new(
                |k: Seq<char>| exists|j: int| 0 <= j < it.index() && #[trigger] keys[j] == k,
                |k: Seq<char>| settings_of_model(src[k]),
            ),
    {
        let ghost i = it.index();
        let (slug, model) = entry;
        let ghost key = slug@;
        out.insert(slug, settings_from_config(model));
        proof {
            assert(key == keys[i]);
            assert forall|k: Seq<char>|
                #![trigger out@.contains_key(k)]
                out@.contains_key(k) <==> (exists|j: int| 0 <= j < i + 1 && #[trigger] keys[j] == k) by {
                if k == key {
                    assert(keys[i] == k);
                }
                if exists|j: int| 0 <= j < i + 1 && #[trigger] keys[j] == k {
                    let j = choose|j: int| 0 <= j < i + 1 && #[trigger] keys[j] == k;
                    if j < i {
                        assert(exists|j2: int| 0 <= j2 < i && #[trigger] keys[j2] == k);
                    }
                }
            }
            assert(out@ =~= Map::new(
                |k: Seq<char>| exists|j: int| 0 <= j < i + 1 && #[trigger] keys[j] == k,
                |k: Seq<char>| settings_of_model(src[k]),
            ));
        }
    }
    proof {
        assert(out@ =~= src.map_values(|m: CodexiumModelConfig| settings_of_model(m))) by {
            assert forall|k: Seq<char>| #[trigger] src.contains_key(k) implies exists|j: int|
                0 <= j < n && #[trigger] keys[j] == k by {
                assert(keys.to_set().contains(k));
            }
        }
    }
    out
}

fn settings_from_provider(p: CodexiumProviderConfig) -> (s: CodexiumProviderSettings)
    ensures
        is_settings_of(s, p),
{
    CodexiumProviderSettings {
        label: p.label,
        base_url: p.base_url,
        env_key: p.env_key,
        wire_api: p.wire_api,
        requires_openai_auth: p.requires_openai_auth,
        readonly: p.readonly,
        provider_type: p.provider_type,
        icon: p.icon,
        models: model_settings_map(p.models),
    }
}

/// Converts every stored provider to its wire settings.
fn provider_settings_map(providers: StrMap<CodexiumProviderConfig>) -> (r: StrMap<
    CodexiumProviderSettings,
>)
    ensures
        r@.dom() == providers@.dom(),
        forall|k: Seq<char>| #[trigger] r@.contains_key(k) ==> is_settings_of(r@[k], providers@[k]),
{
    let n = providers.len();
    let ghost keys = providers.keys();
    let ghost src = providers@;
    let entries = providers.into_entries();
    let mut out: StrMap<CodexiumProviderSettings> = StrMap::new();
    for entry in it: entries
        invariant
            it.seq().len() == n,
            n == keys.len(),
            keys.no_duplicates(),
            src.dom() == keys.to_set(),
            forall|i: int|
                0 <= i < it.seq().len() ==> (#[trigger] it.seq()[i]).0@ == keys[i] && it.seq()[i].1
                    == src[keys[i]],
            forall|k: Seq<char>|
                #![trigger out@.contains_key(k)]
                out@.contains_key(k) <==> (exists|j: int| 0 <= j < it.index() && #[trigger] keys[j] == k),
            forall|k: Seq<char>| #[trigger] out@.contains_key(k) ==> is_settings_of(out@[k], src[k]),
    {
        let ghost i = it.index();
        let (id, provider) = entry;
        let ghost key = id@;
        out.insert(id, settings_from_provider(provider));
        proof {
            assert(key == keys[i]);
            assert forall|k: Seq<char>|
                #![trigger out@.contains_key(k)]
                out@.contains_key(k) <==> (exists|j: int| 0 <= j < i + 1 && #[trigger] keys[j] == k) by {
                if k == key {
                    assert(keys[i] == k);
                }
                if exists|j: int| 0 <= j < i + 1 && #[trigger] keys[j] == k {
                    let j = choose|j: int| 0 <= j < i + 1 && #[trigger] keys[j] == k;
                    if j < i {
                        assert(exists|j2: int| 0 <= j2 < i && #[trigger] keys[j2] == k);
                    }
                }
            }
        }
    }
    proof {
        assert forall|k: Seq<char>| #[trigger] src.contains_key(k) implies out@.contains_key(k) by {
            assert(keys.to_set().contains(k));
            let j = choose|j: int| 0 <= j < keys.len() && keys[j] == k;
            assert(keys[j] == k);
        }
        assert(out@.dom() =~= src.dom());
    }
    out
}

/// The models of the synthetic OpenAI provider: one enabled entry per bundled
/// `(slug, label, description)`; a later entry for the same slug wins.
pub open spec fn openai_models_of(builtin: Seq<(String, String, Option<String>)>) -> Map<
    Seq<char>,
    CodexiumModelSettings,
>
    decreases builtin.len(),
{
    if builtin.len() == 0 {
        Map::empty()
    } else {
        let t = builtin.last();
        openai_models_of(builtin.drop_last()).insert(
            t.0@,
            CodexiumModelSettings {
                enabled: true,
                label: Some(t.1),
                description: t.2,
                context_window: None,
                max_context_window: None,
                auto_compact_token_limit: None,
                max_output_tokens: None,
                tool_output_token_limit: None,
            },
        )
    }
}

/// `s` is the synthetic read-only OpenAI provider with models `models`.
pub open spec fn is_openai_provider(
    s: CodexiumProviderSettings,
    models: Map<Seq<char>, CodexiumModelSettings>,
) -> bool {
    &&& opt_text_eq(s.label, "OpenAI"@)
    &&& s.base_url is None
    &&& s.env_key is None
    &&& opt_text_eq(s.wire_api, "responses"@)
    &&& s.requires_openai_auth
    &&& s.readonly
    &&& opt_text_eq(s.provider_type, "openai"@)
    &&& opt_text_eq(s.icon, "openai"@)
    &&& s.models@ == models
}

/// `o` holds a string whose characters are `t`.
pub open spec fn opt_text_eq(o: Option<String>, t: Seq<char>) -> bool {
    o matches Some(v) && v@ == t
}

/// The bundled first-party OpenAI models as `(slug, label, description)`,
/// leaving out the automatic review model.
pub fn builtin_openai_models(catalog: Vec<ModelInfo>) -> (r: Vec<(String, String, Option<String>)>)
    ensures
        r@.map_values(|t: (String, String, Option<String>)| (t.0@, t.1@, crate::codexium::opt_text(t.2)))
            == catalog@.filter(|m: ModelInfo| m.slug@ != AUTO_REVIEW_MODEL_SLUG@).map_values(
            |m: ModelInfo| (m.slug@, m.display_name@, crate::codexium::opt_text(m.description)),
        ),
{
    let ghost all = catalog@;
    let mut out: Vec<(String, String, Option<String>)> = Vec::new();
    for model in it: catalog
        invariant
            it.seq() == all,
            out@.map_values(|t: (String, String, Option<String>)| (t.0@, t.1@, crate::codexium::opt_text(t.2)))
                == all.subrange(0, it.index()).filter(|m: ModelInfo| m.slug@ != AUTO_REVIEW_MODEL_SLUG@).map_values(
                |m: ModelInfo| (m.slug@, m.display_name@, crate::codexium::opt_text(m.description)),
            ),
    {
        let ghost i = it.index();
        let ghost before = out@;
        proof {
            let next = all.subrange(0, i + 1);
            assert(next.drop_last() =~= all.subrange(0, i));
            assert(next.last() == model);
            reveal(Seq::filter);
        }
        if !str_eq(model.slug.as_str(), AUTO_REVIEW_MODEL_SLUG) {
            out.push((model.slug, model.display_name, model.description));
            proof {
                assert(out@.map_values(|t: (String, String, Option<String>)| (t.0@, t.1@, crate::codexium::opt_text(t.2)))
                    =~= before.map_values(|t: (String, String, Option<String>)| (t.0@, t.1@, crate::codexium::opt_text(t.2))).push(
                    (model.slug@, model.display_name@, crate::codexium::opt_text(model.description)),
                ));
            }
        }
    }
    proof {
        assert(all.subrange(0, all.len() as int) =~= all);
    }
    out
}

impl CodexiumRequestProcessor {
    /// A processor for the Codex home `codex_home`.
    pub fn new(codex_home: String) -> (p: Self)
        ensures
            p.codex_home == codex_home,
    {
        CodexiumRequestProcessor { codex_home }
    }

    /// The path of `models.json` under the codexium folder of the Codex home.
    pub fn models_path(&self) -> (path: String)
        ensures
            is_codexium_file(path@, self.codex_home@, MODELS_FILE_NAME@),
    {
        crate::codexium::models_path(self.codex_home.as_str())
    }

    /// The path of `auth.json` under the codexium folder of the Codex home.
    pub fn auth_path(&self) -> (path: String)
        ensures
            is_codexium_file(path@, self.codex_home@, AUTH_FILE_NAME@),
    {
        crate::codexium::auth_path(self.codex_home.as_str())
    }

    /// The synthetic read-only `openai` provider listing the bundled OpenAI
    /// models, so the user can enable or disable them without removing them.
    pub fn openai_provider(&self, builtin: Vec<(String, String, Option<String>)>) -> (s:
        CodexiumProviderSettings)
        ensures
            is_openai_provider(s, openai_models_of(builtin@)),
    {
        let ghost all = builtin@;
        let mut models: StrMap<CodexiumModelSettings> = StrMap::new();
        for entry in it: builtin
            invariant
                it.seq() == all,
                models@ == openai_models_of(all.subrange(0, it.index())),
        {
            let ghost i = it.index();
            proof {
                let next = all.subrange(0, i + 1);
                assert(next.drop_last() =~= all.subrange(0, i));
                assert(next.last() == entry);
            }
            let (slug, label, description) = entry;
            models.insert(
                slug,
                CodexiumModelSettings {
                    enabled: true,
                    label: Some(label),
                    description,
                    context_window: None,
                    max_context_window: None,
                    auto_compact_token_limit: None,
                    max_output_tokens: None,
                    tool_output_token_limit: None,
                },
            );
        }
        proof {
            assert(all.subrange(0, all.len() as int) =~= all);
            reveal_strlit("OpenAI");
            reveal_strlit("responses");
            reveal_strlit("openai");
        }
        CodexiumProviderSettings {
            label: Some("OpenAI".to_owned()),
            base_url: None,
            env_key: None,
            wire_api: Some("responses".to_owned()),
            requires_openai_auth: true,
            readonly: true,
            provider_type: Some("openai".to_owned()),
            icon: Some("openai".to_owned()),
            models,
        }
    }
}

/// The bundled OpenAI models with the stored per-model state laid over them:
/// a stored model that is bundled only contributes its enable state; one that
/// is not bundled is added as stored.
pub open spec fn overlaid(
    base: Map<Seq<char>, CodexiumModelSettings>,
    state: Map<Seq<char>, CodexiumModelSettings>,
) -> Map<Seq<char>, CodexiumModelSettings> {
    Map::new(
        |k: Seq<char>| base.contains_key(k) || state.contains_key(k),
        |k: Seq<char>|
            if base.contains_key(k) {
                if state.contains_key(k) {
                    CodexiumModelSettings { enabled: state[k].enabled, ..base[k] }
                } else {
                    base[k]
                }
            } else {
                state[k]
            },
    )
}

/// `state` restricted to the first `j` of `keys`.
pub open spec fn first_keys_of<V>(state: Map<Seq<char>, V>, keys: Seq<Seq<char>>, j: int) -> Map<
    Seq<char>,
    V,
> {
    Map::new(
        |k: Seq<char>| exists|i: int| 0 <= i < j && #[trigger] keys[i] == k,
        |k: Seq<char>| state[k],
    )
}

fn overlay_models(base: StrMap<CodexiumModelSettings>, state: StrMap<CodexiumModelSettings>) -> (r:
    StrMap<CodexiumModelSettings>)
    ensures
        r@ == overlaid(base@, state@),
{
    let n = state.len();
    let ghost keys = state.keys();
    let ghost st = state@;
    let ghost b = base@;
    let entries = state.into_entries();
    let mut merged = base;
    for entry in it: entries
        invariant
            it.seq().len() == n,
            n == keys.len(),
            keys.no_duplicates(),
            st.dom() == keys.to_set(),
            forall|i: int|
                0 <= i < it.seq().len() ==> (#[trigger] it.seq()[i]).0@ == keys[i] && it.seq()[i].1
                    == st[keys[i]],
            merged@ == overlaid(b, first_keys_of(st, keys, it.index())),
    {
        let ghost i = it.index();
        let (slug, model) = entry;
        let ghost key = slug@;
        proof {
            assert(key == keys[i]);
            assert(!first_keys_of(st, keys, i).contains_key(key)) by {
                if first_keys_of(st, keys, i).contains_key(key) {
                    let j = choose|j: int| 0 <= j < i && #[trigger] keys[j] == key;
                    assert(keys[j] == keys[i]);
                }
            }
        }
        match merged.remove(slug.as_str()) {
            Some(existing) => {
                let mut existing = existing;
                existing.enabled = model.enabled;
                merged.insert(slug, existing);
            },
            None => {
                merged.insert(slug, model);
            },
        }
        proof {
            let next = first_keys_of(st, keys, i + 1);
            assert forall|k: Seq<char>|
                #![trigger next.contains_key(k)]
                next.contains_key(k) <==> (first_keys_of(st, keys, i).contains_key(k) || k == key) by {
                if k == key {
                    assert(keys[i] == k);
                }
                if next.contains_key(k) {
                    let j = choose|j: int| 0 <= j < i + 1 && #[trigger] keys[j] == k;
                    if j < i {
                        assert(first_keys_of(st, keys, i).contains_key(k));
                    }
                }
            }
            assert(merged@ =~= overlaid(b, next));
        }
    }
    proof {
        assert(first_keys_of(st, keys, n as int) =~= st) by {
            assert forall|k: Seq<char>| #[trigger] st.contains_key(k) implies first_keys_of(
                st,
                keys,
                n as int,
            ).contains_key(k) by {
                assert(keys.to_set().contains(k));
                let j = choose|j: int| 0 <= j < keys.len() && keys[j] == k;
                assert(keys[j] == k);
            }
        }
    }
    merged
}

/// The models the read response lists for the OpenAI provider.
pub open spec fn read_openai_models(
    file: CodexiumModelsFile,
    builtin: Seq<(String, String, Option<String>)>,
) -> Map<Seq<char>, CodexiumModelSettings> {
    if file.providers@.contains_key(OPENAI_PROVIDER_ID@) {
        overlaid(
            openai_models_of(builtin),
            file.providers@[OPENAI_PROVIDER_ID@].models@.map_values(
                |m: CodexiumModelConfig| settings_of_model(m),
            ),
        )
    } else {
        openai_models_of(builtin)
    }
}

/// `r` answers `codexium/models/read` for the stored `file` and the bundled
/// models `builtin`: every stored provider but `openai` as wire settings,
/// and the read-only `openai` provider over the bundled models.
pub open spec fn is_models_read_of(
    r: CodexiumModelsReadResponse,
    file: CodexiumModelsFile,
    builtin: Seq<(String, String, Option<String>)>,
) -> bool {
    &&& r.providers@.contains_key(OPENAI_PROVIDER_ID@)
    &&& is_openai_provider(r.providers@[OPENAI_PROVIDER_ID@], read_openai_models(file, builtin))
    &&& forall|k: Seq<char>|
        k != OPENAI_PROVIDER_ID@ ==> (#[trigger] r.providers@.contains_key(k)
            <==> file.providers@.contains_key(k))
    &&& forall|k: Seq<char>|
        k != OPENAI_PROVIDER_ID@ && #[trigger] r.providers@.contains_key(k) ==> is_settings_of(
            r.providers@[k],
            file.providers@[k],
        )
}

impl CodexiumRequestProcessor {
    /// Answers `codexium/models/read` from the loaded `models.json` and the
    /// bundled OpenAI models: every stored provider as wire settings, plus the
    /// read-only `openai` provider with any stored per-model state laid over
    /// the bundled models.
    pub fn models_read(&self, file: CodexiumModelsFile, builtin: Vec<(String, String, Option<String>)>) -> (r:
        CodexiumModelsReadResponse)
        ensures
            is_models_read_of(r, file, builtin@),
    {
        let ghost stored = file.providers@;
        let mut providers = provider_settings_map(file.providers);
        let openai = self.openai_provider(builtin);
        proof {
            reveal_strlit("openai");
        }
        let openai_state = providers.remove(OPENAI_PROVIDER_ID);
        match openai_state {
            Some(state) => {
                let merged = CodexiumProviderSettings {
                    models: overlay_models(openai.models, state.models),
                    ..openai
                };
                providers.insert(OPENAI_PROVIDER_ID.to_owned(), merged);
            },
            None => {
                providers.insert(OPENAI_PROVIDER_ID.to_owned(), openai);
            },
        }
        CodexiumModelsReadResponse { providers }
    }
}

/// The stored config that keeps only whether a model is enabled.
pub open spec fn enable_state_config(m: CodexiumModelSettings) -> CodexiumModelConfig {
    CodexiumModelConfig {
        enabled: m.enabled,
        label: None,
        description: None,
        context_window: None,
        max_context_window: None,
        auto_compact_token_limit: None,
        max_output_tokens: None,
        tool_output_token_limit: None,
        shell_type: None,
    }
}

fn enable_state_from_settings(m: &CodexiumModelSettings) -> (c: CodexiumModelConfig)
    ensures
        c == enable_state_config(*m),
{
    CodexiumModelConfig {
        enabled: m.enabled,
        label: None,
        description: None,
        context_window: None,
        max_context_window: None,
        auto_compact_token_limit: None,
        max_output_tokens: None,
        tool_output_token_limit: None,
        shell_type: None,
    }
}

fn model_config_map(models: StrMap<CodexiumModelSettings>) -> (r: StrMap<CodexiumModelConfig>)
    ensures
        r@ == models@.map_values(|m: CodexiumModelSettings| config_of_settings(m)),
{
    let n = models.len();
    let ghost keys = models.keys();
    let ghost src = models@;
    let entries = models.into_entries();
    let mut out: StrMap<CodexiumModelConfig> = StrMap::new();
    for entry in it: entries
        invariant
            it.seq().len() == n,
            n == keys.len(),
            keys.no_duplicates(),
            src.dom() == keys.to_set(),
            forall|i: int|
                0 <= i < it.seq().len() ==> (#[trigger] it.seq()[i]).0@ == keys[i] && it.seq()[i].1
                    == src[keys[i]],
            out@ == first_keys_of(src, keys, it.index()).map_values(
                |m: CodexiumModelSettings| config_of_settings(m),
            ),
    {
        let ghost i = it.index();
        let (slug, model) = entry;
        let ghost key = slug@;
        out.insert(slug, config_from_settings(model));
        proof {
            assert(key == keys[i]);
            let next = first_keys_of(src, keys, i + 1);
            assert forall|k: Seq<char>|
                #![trigger next.contains_key(k)]
                next.contains_key(k) <==> (first_keys_of(src, keys, i).contains_key(k) || k == key) by {
                if k == key {
                    assert(keys[i] == k);
                }
                if next.contains_key(k) {
                    let j = choose|j: int| 0 <= j < i + 1 && #[trigger] keys[j] == k;
                    if j < i {
                        assert(first_keys_of(src, keys, i).contains_key(k));
                    }
                }
            }
            assert(out@ =~= next.map_values(|m: CodexiumModelSettings| config_of_settings(m)));
        }
    }
    proof {
        assert(first_keys_of(src, keys, n as int) =~= src) by {
            assert forall|k: Seq<char>| #[trigger] src.contains_key(k) implies first_keys_of(
                src,
                keys,
                n as int,
            ).contains_key(k) by {
                assert(keys.to_set().contains(k));
                let j = choose|j: int| 0 <= j < keys.len() && keys[j] == k;
                assert(keys[j] == k);
            }
        }
    }
    out
}

fn enable_state_map(models: StrMap<CodexiumModelSettings>) -> (r: StrMap<CodexiumModelConfig>)
    ensures
        r@ == models@.map_values(|m: CodexiumModelSettings| enable_state_config(m)),
{
    let n = models.len();
    let ghost keys = models.keys();
    let ghost src = models@;
    let entries = models.into_entries();
    let mut out: StrMap<CodexiumModelConfig> = StrMap::new();
    for entry in it: entries
        invariant
            it.seq().len() == n,
            n == keys.len(),
            keys.no_duplicates(),
            src.dom() == keys.to_set(),
            forall|i: int|
                0 <= i < it.seq().len() ==> (#[trigger] it.seq()[i]).0@ == keys[i] && it.seq()[i].1
                    == src[keys[i]],
            out@ == first_keys_of(src, keys, it.index()).map_values(
                |m: CodexiumModelSettings| enable_state_config(m),
            ),
    {
        let ghost i = it.index();
        let (slug, model) = entry;
        let ghost key = slug@;
        out.insert(slug, enable_state_from_settings(&model));
        proof {
            assert(key == keys[i]);
            let next = first_keys_of(src, keys, i + 1);
            assert forall|k: Seq<char>|
                #![trigger next.contains_key(k)]
                next.contains_key(k) <==> (first_keys_of(src, keys, i).contains_key(k) || k == key) by {
                if k == key {
                    assert(keys[i] == k);
                }
                if next.contains_key(k) {
                    let j = choose|j: int| 0 <= j < i + 1 && #[trigger] keys[j] == k;
                    if j < i {
                        assert(first_keys_of(src, keys, i).contains_key(k));
                    }
                }
            }
            assert(out@ =~= next.map_values(|m: CodexiumModelSettings| enable_state_config(m)));
        }
    }
    proof {
        assert(first_keys_of(src, keys, n as int) =~= src) by {
            assert forall|k: Seq<char>| #[trigger] src.contains_key(k) implies first_keys_of(
                src,
                keys,
                n as int,
            ).contains_key(k) by {
                assert(keys.to_set().contains(k));
                let j = choose|j: int| 0 <= j < keys.len() && keys[j] == k;
                assert(keys[j] == k);
            }
        }
    }
    out
}

/// `p` stores only the per-model enable state of the provider settings `s`:
/// no provider fields, and for each model nothing but whether it is enabled.
pub open spec fn is_enable_state_of(p: CodexiumProviderConfig, s: CodexiumProviderSettings) -> bool {
    &&& p.label is None
    &&& p.base_url is None
    &&& p.env_key is None
    &&& p.wire_api is None
    &&& !p.requires_openai_auth
    &&& !p.readonly
    &&& p.provider_type is None
    &&& p.icon is None
    &&& p.name is None
    &&& p.models@ == s.models@.map_values(|m: CodexiumModelSettings| enable_state_config(m))
}

/// `file` is what `codexium/models/write` persists for `params`: every
/// provider but `openai` stored as given; the synthetic `openai` provider is
/// never stored as a full provider, only its per-model enable state.
pub open spec fn is_models_write_of(file: CodexiumModelsFile, params: CodexiumModelsWriteParams) -> bool {
    &&& forall|k: Seq<char>|
        #[trigger] file.providers@.contains_key(k) <==> params.providers@.contains_key(k)
    &&& forall|k: Seq<char>|
        #[trigger] file.providers@.contains_key(k) && k != OPENAI_PROVIDER_ID@ ==> is_config_of(
            file.providers@[k],
            params.providers@[k],
        )
    &&& file.providers@.contains_key(OPENAI_PROVIDER_ID@) ==> is_enable_state_of(
        file.providers@[OPENAI_PROVIDER_ID@],
        params.providers@[OPENAI_PROVIDER_ID@],
    )
}

/// The wire settings that a stored enable state reads back as.
pub open spec fn enable_state_settings(m: CodexiumModelSettings) -> CodexiumModelSettings {
    settings_of_model(enable_state_config(m))
}

/// Two wire providers carry the same settings and models.
pub open spec fn same_settings(a: CodexiumProviderSettings, b: CodexiumProviderSettings) -> bool {
    &&& a.label == b.label
    &&& a.base_url == b.base_url
    &&& a.env_key == b.env_key
    &&& a.wire_api == b.wire_api
    &&& a.requires_openai_auth == b.requires_openai_auth
    &&& a.readonly == b.readonly
    &&& a.provider_type == b.provider_type
    &&& a.icon == b.icon
    &&& a.models@ == b.models@
}

proof fn model_settings_round_trip(m: Map<Seq<char>, CodexiumModelSettings>)
    ensures
        m.map_values(|c: CodexiumModelSettings| config_of_settings(c)).map_values(
            |c: CodexiumModelConfig| settings_of_model(c),
        ) == m,
{
    assert(m.map_values(|c: CodexiumModelSettings| config_of_settings(c)).map_values(
        |c: CodexiumModelConfig| settings_of_model(c),
    ) =~= m);
}

proof fn enable_state_round_trip(m: Map<Seq<char>, CodexiumModelSettings>)
    ensures
        m.map_values(|c: CodexiumModelSettings| enable_state_config(c)).map_values(
            |c: CodexiumModelConfig| settings_of_model(c),
        ) == m.map_values(|c: CodexiumModelSettings| enable_state_settings(c)),
{
    assert(m.map_values(|c: CodexiumModelSettings| enable_state_config(c)).map_values(
        |c: CodexiumModelConfig| settings_of_model(c),
    ) =~= m.map_values(|c: CodexiumModelSettings| enable_state_settings(c)));
}

/// What `models/write` persists, `models/read` gives back: every written
/// provider but `openai` with the same settings and models; for `openai`, the
/// bundled models with the written enable state laid over them, so each
/// written model is listed with the enable flag it was written with.
pub proof fn models_write_then_read(
    params: CodexiumModelsWriteParams,
    file: CodexiumModelsFile,
    r: CodexiumModelsReadResponse,
    builtin: Seq<(String, String, Option<String>)>,
)
    requires
        is_models_write_of(file, params),
        is_models_read_of(r, file, builtin),
    ensures
        forall|k: Seq<char>|
            k != OPENAI_PROVIDER_ID@ ==> (#[trigger] r.providers@.contains_key(k)
                <==> params.providers@.contains_key(k)),
        forall|k: Seq<char>|
            k != OPENAI_PROVIDER_ID@ && #[trigger] params.providers@.contains_key(k) ==> same_settings(
                r.providers@[k],
                params.providers@[k],
            ),
        params.providers@.contains_key(OPENAI_PROVIDER_ID@) ==> r.providers@[OPENAI_PROVIDER_ID@].models@
            == overlaid(
            openai_models_of(builtin),
            params.providers@[OPENAI_PROVIDER_ID@].models@.map_values(
                |m: CodexiumModelSettings| enable_state_settings(m),
            ),
        ),
        params.providers@.contains_key(OPENAI_PROVIDER_ID@) ==> forall|slug: Seq<char>|
            #[trigger] params.providers@[OPENAI_PROVIDER_ID@].models@.contains_key(slug) ==> {
                &&& r.providers@[OPENAI_PROVIDER_ID@].models@.contains_key(slug)
                &&& r.providers@[OPENAI_PROVIDER_ID@].models@[slug].enabled
                    == params.providers@[OPENAI_PROVIDER_ID@].models@[slug].enabled
            },
{
    assert forall|k: Seq<char>|
        k != OPENAI_PROVIDER_ID@ && #[trigger] params.providers@.contains_key(k) implies same_settings(
        r.providers@[k],
        params.providers@[k],
    ) by {
        assert(file.providers@.contains_key(k));
        assert(r.providers@.contains_key(k));
        model_settings_round_trip(params.providers@[k].models@);
    }
    if params.providers@.contains_key(OPENAI_PROVIDER_ID@) {
        assert(file.providers@.contains_key(OPENAI_PROVIDER_ID@));
        enable_state_round_trip(params.providers@[OPENAI_PROVIDER_ID@].models@);
    }
}

/// `models/write` stores each setting of a written model in the field of
/// the same name: enable flag, label, description, context window, maximum
/// context window, auto-compaction limit, output limit and tool-output limit;
/// it stores no shell type. Every provider but `openai` keeps its fields.
pub proof fn models_write_stores_each_setting_in_its_field(
    params: CodexiumModelsWriteParams,
    file: CodexiumModelsFile,
    id: Seq<char>,
    slug: Seq<char>,
)
    requires
        is_models_write_of(file, params),
        id != OPENAI_PROVIDER_ID@,
        params.providers@.contains_key(id),
        params.providers@[id].models@.contains_key(slug),
    ensures
        ({
            let written = params.providers@[id].models@[slug];
            let stored_provider = file.providers@[id];
            let written_provider = params.providers@[id];
            &&& file.providers@.contains_key(id)
            &&& stored_provider.label == written_provider.label
            &&& stored_provider.base_url == written_provider.base_url
            &&& stored_provider.env_key == written_provider.env_key
            &&& stored_provider.wire_api == written_provider.wire_api
            &&& stored_provider.requires_openai_auth == written_provider.requires_openai_auth
            &&& stored_provider.readonly == written_provider.readonly
            &&& stored_provider.provider_type == written_provider.provider_type
            &&& stored_provider.icon == written_provider.icon
            &&& stored_provider.models@.contains_key(slug)
            &&& stored_provider.models@[slug].enabled == written.enabled
            &&& stored_provider.models@[slug].label == written.label
            &&& stored_provider.models@[slug].description == written.description
            &&& stored_provider.models@[slug].context_window == written.context_window
            &&& stored_provider.models@[slug].max_context_window == written.max_context_window
            &&& stored_provider.models@[slug].auto_compact_token_limit
                == written.auto_compact_token_limit
            &&& stored_provider.models@[slug].max_output_tokens == written.max_output_tokens
            &&& stored_provider.models@[slug].tool_output_token_limit
                == written.tool_output_token_limit
            &&& stored_provider.models@[slug].shell_type is None
        }),
{
    assert(file.providers@.contains_key(id));
}

/// `models/read` reports each stored setting of a stored model under the
/// field of the same name, for every provider but `openai`.
pub proof fn models_read_reports_each_setting_in_its_field(
    r: CodexiumModelsReadResponse,
    file: CodexiumModelsFile,
    builtin: Seq<(String, String, Option<String>)>,
    id: Seq<char>,
    slug: Seq<char>,
)
    requires
        is_models_read_of(r, file, builtin),
        id != OPENAI_PROVIDER_ID@,
        file.providers@.contains_key(id),
        file.providers@[id].models@.contains_key(slug),
    ensures
        ({
            let stored = file.providers@[id].models@[slug];
            let read = r.providers@[id].models@[slug];
            &&& r.providers@.contains_key(id)
            &&& r.providers@[id].label == file.providers@[id].label
            &&& r.providers@[id].base_url == file.providers@[id].base_url
            &&& r.providers@[id].env_key == file.providers@[id].env_key
            &&& r.providers@[id].models@.contains_key(slug)
            &&& read.enabled == stored.enabled
            &&& read.label == stored.label
            &&& read.description == stored.description
            &&& read.context_window == stored.context_window
            &&& read.max_context_window == stored.max_context_window
            &&& read.auto_compact_token_limit == stored.auto_compact_token_limit
            &&& read.max_output_tokens == stored.max_output_tokens
            &&& read.tool_output_token_limit == stored.tool_output_token_limit
        }),
{
    assert(r.providers@.contains_key(id));
}

impl CodexiumRequestProcessor {
    /// Answers `codexium/models/write`: the `models.json` contents to persist
    /// for the given providers.
    pub fn models_write(&self, params: CodexiumModelsWriteParams) -> (file: CodexiumModelsFile)
        ensures
            is_models_write_of(file, params),
    {
        let n = params.providers.len();
        let ghost keys = params.providers.keys();
        let ghost src = params.providers@;
        let entries = params.providers.into_entries();
        let mut out: StrMap<CodexiumProviderConfig> = StrMap::new();
        proof {
            reveal_strlit("openai");
        }
        for entry in it: entries
            invariant
                it.seq().len() == n,
                n == keys.len(),
                keys.no_duplicates(),
                src.dom() == keys.to_set(),
                forall|i: int|
                    0 <= i < it.seq().len() ==> (#[trigger] it.seq()[i]).0@ == keys[i]
                        && it.seq()[i].1 == src[keys[i]],
                forall|k: Seq<char>|
                    #[trigger] out@.contains_key(k) <==> first_keys_of(
                        src,
                        keys,
                        it.index(),
                    ).contains_key(k),
                forall|k: Seq<char>|
                    #[trigger] out@.contains_key(k) && k != OPENAI_PROVIDER_ID@ ==> is_config_of(
                        out@[k],
                        src[k],
                    ),
                out@.contains_key(OPENAI_PROVIDER_ID@) ==> is_enable_state_of(
                    out@[OPENAI_PROVIDER_ID@],
                    src[OPENAI_PROVIDER_ID@],
                ),
        {
            let ghost i = it.index();
            let (id, provider) = entry;
            let ghost key = id@;
            proof {
                assert(key == keys[i]);
            }
            if str_eq(id.as_str(), OPENAI_PROVIDER_ID) {
                let config = CodexiumProviderConfig {
                    label: None,
                    base_url: None,
                    env_key: None,
                    wire_api: None,
                    requires_openai_auth: false,
                    readonly: false,
                    provider_type: None,
                    icon: None,
                    name: None,
                    models: enable_state_map(provider.models),
                };
                out.insert(id, config);
            } else {
                let config = CodexiumProviderConfig {
                    label: provider.label,
                    base_url: provider.base_url,
                    env_key: provider.env_key,
                    wire_api: provider.wire_api,
                    requires_openai_auth: provider.requires_openai_auth,
                    readonly: provider.readonly,
                    provider_type: provider.provider_type,
                    icon: provider.icon,
                    name: None,
                    models: model_config_map(provider.models),
                };
                out.insert(id, config);
            }
            proof {
                let next = first_keys_of(src, keys, i + 1);
                assert forall|k: Seq<char>|
                    #![trigger next.contains_key(k)]
                    next.contains_key(k) <==> (first_keys_of(src, keys, i).contains_key(k) || k
                        == key) by {
                    if k == key {
                        assert(keys[i] == k);
                    }
                    if next.contains_key(k) {
                        let j = choose|j: int| 0 <= j < i + 1 && #[trigger] keys[j] == k;
                        if j < i {
                            assert(first_keys_of(src, keys, i).contains_key(k));
                        }
                    }
                }
            }
        }
        proof {
            assert forall|k: Seq<char>| #[trigger] src.contains_key(k) implies first_keys_of(
                src,
                keys,
                n as int,
            ).contains_key(k) by {
                assert(keys.to_set().contains(k));
                let j = choose|j: int| 0 <= j < keys.len() && keys[j] == k;
                assert(keys[j] == k);
            }
        }
        CodexiumModelsFile { providers: out }
    }
}

} // verus!
