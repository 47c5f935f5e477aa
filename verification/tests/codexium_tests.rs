use codexium_core::{
    apply_codexium_visibility, auth_env_assignments, build_codexium_model_providers,
    build_model_catalog, codexium_dir, ensure_default_files, select_registry, AuthEntryValue,
    CodexiumAuthFile, CodexiumModelConfig, CodexiumModelsFile, CodexiumProviderConfig,
    ConfigShellToolType, ModelInfo, ModelPreset, ModelProviderInfo, ModelVisibility,
    ProviderRegistry, RegistryProvider, StrMap, TruncationPolicyConfig, WireApi,
    AUTH_FILE_NAME, CODEXIUM_DIR_NAME, DEFAULT_AUTH_JSON, DEFAULT_MODELS_JSON, MODELS_FILE_NAME,
};

fn model(enabled: bool, label: Option<&str>) -> CodexiumModelConfig {
    CodexiumModelConfig {
        enabled,
        label: label.map(str::to_string),
        description: None,
        context_window: None,
        max_context_window: None,
        auto_compact_token_limit: None,
        max_output_tokens: None,
        tool_output_token_limit: None,
        shell_type: None,
    }
}

fn provider(label: Option<&str>, models: Vec<(&str, CodexiumModelConfig)>) -> CodexiumProviderConfig {
    let mut map = StrMap::new();
    for (slug, config) in models {
        map.insert(slug.to_string(), config);
    }
    CodexiumProviderConfig {
        label: label.map(str::to_string),
        base_url: None,
        env_key: None,
        wire_api: None,
        requires_openai_auth: false,
        readonly: false,
        provider_type: None,
        icon: None,
        name: None,
        models: map,
    }
}

fn file(providers: Vec<(&str, CodexiumProviderConfig)>) -> CodexiumModelsFile {
    let mut map = StrMap::new();
    for (id, config) in providers {
        map.insert(id.to_string(), config);
    }
    CodexiumModelsFile { providers: map }
}

fn fallback() -> ModelInfo {
    ModelInfo {
        slug: String::new(),
        display_name: String::new(),
        description: None,
        context_window: Some(272_000),
        max_context_window: None,
        auto_compact_token_limit: None,
        max_output_tokens: None,
        truncation_policy: TruncationPolicyConfig::Bytes(10_000),
        shell_type: ConfigShellToolType::Default,
        visibility: ModelVisibility::Unset,
        priority: 0,
        used_fallback_model_metadata: true,
        is_custom: false,
        provider: None,
        provider_label: None,
    }
}

fn bundled(slug: &str) -> ModelInfo {
    ModelInfo {
        slug: slug.to_string(),
        display_name: slug.to_string(),
        visibility: ModelVisibility::List,
        used_fallback_model_metadata: false,
        ..fallback()
    }
}

fn preset(model: &str, provider: Option<&str>, is_custom: bool, show_in_picker: bool) -> ModelPreset {
    ModelPreset {
        id: model.to_string(),
        model: model.to_string(),
        display_name: model.to_string(),
        description: String::new(),
        is_default: false,
        show_in_picker,
        supported_in_api: true,
        is_custom,
        provider: provider.map(|p| p.to_string()),
        provider_label: None,
    }
}

fn custom_preset(provider_id: &str, slug: &str, show_in_picker: bool) -> ModelPreset {
    preset(&format!("{provider_id}.{slug}"), Some(provider_id), true, show_in_picker)
}

fn runtime_provider(env_key: &str) -> ModelProviderInfo {
    ModelProviderInfo {
        name: String::new(),
        base_url: None,
        env_key: Some(env_key.to_string()),
        wire_api: WireApi::Responses,
        requires_openai_auth: false,
    }
}

#[test]
fn ensure_default_files_creates_both_files() {
    let home = "/tmp/codex-home";
    let files = ensure_default_files(home, false, false);
    assert_eq!(files.len(), 2);
    let models_path = std::path::Path::new(home).join(CODEXIUM_DIR_NAME).join(MODELS_FILE_NAME);
    let auth_path = std::path::Path::new(home).join(CODEXIUM_DIR_NAME).join(AUTH_FILE_NAME);
    assert_eq!(files[0].0, models_path.to_string_lossy());
    assert_eq!(files[1].0, auth_path.to_string_lossy());
    assert_eq!(files[0].1, DEFAULT_MODELS_JSON);
    assert_eq!(files[1].1, DEFAULT_AUTH_JSON);
    let parsed: serde_json::Value = serde_json::from_str(files[0].1).expect("parse");
    assert!(parsed.get("providers").is_some());
}

#[test]
fn ensure_default_files_preserves_existing_content() {
    let home = "/tmp/codex-home";
    // models.json already exists: only auth.json is created.
    let files = ensure_default_files(home, true, false);
    assert_eq!(files.len(), 1);
    assert!(files[0].0.ends_with(AUTH_FILE_NAME));
    assert!(ensure_default_files(home, true, true).is_empty());
}

#[test]
fn build_model_catalog_merges_custom_models() {
    let mut flash = model(true, Some("DeepSeek V4 Flash"));
    flash.context_window = Some(131_072);
    flash.max_output_tokens = Some(8192);
    let file = file(vec![("deepseek", provider(Some("DeepSeek"), vec![("deepseek-v4-flash", flash)]))]);

    let catalog = build_model_catalog(&file, Vec::new(), &fallback());
    let custom = catalog
        .iter()
        .find(|m| m.slug == "deepseek.deepseek-v4-flash")
        .expect("custom model should be present");

    assert_eq!(custom.display_name, "DeepSeek V4 Flash");
    assert_eq!(custom.context_window, Some(131_072));
    assert_eq!(custom.max_output_tokens, Some(8192));
    assert_eq!(custom.visibility, ModelVisibility::List);
    assert_eq!(custom.used_fallback_model_metadata, false);
    assert_eq!(custom.is_custom, true);
    assert_eq!(custom.provider.as_deref(), Some("deepseek"));
    assert_eq!(custom.provider_label.as_deref(), Some("DeepSeek"));
}

#[test]
fn build_model_catalog_supports_legacy_flat_provider_format() {
    // The flat form carries no label: the provider id labels the models.
    let mut flash = model(true, None);
    flash.context_window = Some(131_072);
    let file = file(vec![("deepseek", provider(None, vec![("deepseek-v4-flash", flash)]))]);

    let catalog = build_model_catalog(&file, Vec::new(), &fallback());
    let custom = catalog
        .iter()
        .find(|m| m.slug == "deepseek.deepseek-v4-flash")
        .expect("custom model should be present");

    assert_eq!(custom.context_window, Some(131_072));
    assert_eq!(custom.provider.as_deref(), Some("deepseek"));
    assert_eq!(custom.provider_label.as_deref(), Some("deepseek"));
}

#[test]
fn build_model_catalog_overrides_existing_entry() {
    let mut flash = model(true, None);
    flash.context_window = Some(64000);
    let file = file(vec![("deepseek", provider(None, vec![("deepseek-v4-flash", flash)]))]);

    let mut stale = bundled("deepseek.deepseek-v4-flash");
    stale.context_window = Some(1);
    let existing = vec![bundled("gpt-5.4"), stale];
    let catalog = build_model_catalog(&file, existing, &fallback());
    let custom: Vec<_> = catalog
        .iter()
        .filter(|m| m.slug == "deepseek.deepseek-v4-flash")
        .collect();
    assert_eq!(custom.len(), 1, "custom model should be present once");
    assert_eq!(custom[0].context_window, Some(64000));
    assert_eq!(catalog.len(), 2);
}

#[test]
fn build_codexium_model_providers_registers_providers_with_base_url() {
    let mut deepseek = provider(Some("DeepSeek"), vec![("deepseek-v4-flash", model(true, Some("DeepSeek V4 Flash")))]);
    deepseek.base_url = Some("https://api.deepseek.com".to_string());
    deepseek.env_key = Some("DEEPSEEK_API_KEY".to_string());
    deepseek.wire_api = Some("responses".to_string());
    let mut kimi = provider(Some("Kimi"), vec![("kimi-k3", model(true, Some("Kimi K3")))]);
    kimi.base_url = Some("https://api.moonshot.ai/v1".to_string());
    let no_url = provider(Some("No URL"), vec![("x", model(true, None))]);
    let file = file(vec![("deepseek", deepseek), ("kimi", kimi), ("no-url-provider", no_url)]);

    let providers = build_codexium_model_providers(&file);

    let deepseek = providers.get("deepseek").expect("deepseek provider present");
    assert_eq!(deepseek.base_url.as_deref(), Some("https://api.deepseek.com"));
    assert_eq!(deepseek.env_key.as_deref(), Some("DEEPSEEK_API_KEY"));
    assert_eq!(deepseek.wire_api, WireApi::Responses);
    assert_eq!(deepseek.requires_openai_auth, false);
    assert_eq!(deepseek.name, "DeepSeek");

    let kimi = providers.get("kimi").expect("kimi provider present");
    assert_eq!(kimi.base_url.as_deref(), Some("https://api.moonshot.ai/v1"));
    assert_eq!(kimi.env_key, None);

    // Providers without a base_url are not registered.
    assert!(!providers.contains_key("no-url-provider"));
}

#[test]
fn build_codexium_model_providers_prefers_name_then_label_then_id() {
    let mut named = provider(Some("Label"), vec![]);
    named.name = Some("Name".to_string());
    named.base_url = Some("https://a".to_string());
    let mut bare = provider(None, vec![]);
    bare.base_url = Some("https://b".to_string());
    bare.wire_api = Some("chat".to_string());
    let providers = build_codexium_model_providers(&file(vec![("named", named), ("bare", bare)]));
    assert_eq!(providers.get("named").expect("named").name, "Name");
    let bare = providers.get("bare").expect("bare");
    assert_eq!(bare.name, "bare");
    assert_eq!(bare.wire_api, WireApi::Responses);
}

#[test]
fn load_auth_file_accepts_nested_api_key_format() {
    let auth = CodexiumAuthFile::from_entries(vec![(
        "deepseek".to_string(),
        AuthEntryValue::Object { api_key: Some("sk-nested-key-456".to_string()) },
    )]);
    assert_eq!(auth.providers.get("deepseek").map(String::as_str), Some("sk-nested-key-456"));
}

#[test]
fn load_auth_file_skips_invalid_entries() {
    let auth = CodexiumAuthFile::from_entries(vec![
        ("flat".to_string(), AuthEntryValue::Key("sk-flat".to_string())),
        ("nokey".to_string(), AuthEntryValue::Object { api_key: None }),
        ("number".to_string(), AuthEntryValue::Invalid),
    ]);
    assert_eq!(auth.providers.get("flat").map(String::as_str), Some("sk-flat"));
    assert!(!auth.providers.contains_key("nokey"));
    assert!(!auth.providers.contains_key("number"));
    assert_eq!(auth.providers.len(), 1);
}

#[test]
fn apply_auth_to_env_injects_keys_for_known_providers() {
    let auth = CodexiumAuthFile::from_entries(vec![(
        "deepseek".to_string(),
        AuthEntryValue::Key("sk-test-key-123".to_string()),
    )]);
    let mut providers = StrMap::new();
    providers.insert("deepseek".to_string(), runtime_provider("CODEXIUM_TEST_DEEPSEEK_KEY"));

    let assignments = auth_env_assignments(&auth, &providers);
    assert_eq!(
        assignments,
        vec![("CODEXIUM_TEST_DEEPSEEK_KEY".to_string(), "sk-test-key-123".to_string())]
    );
}

#[test]
fn apply_auth_to_env_skips_unknown_providers() {
    let auth = CodexiumAuthFile::from_entries(vec![(
        "missing-provider".to_string(),
        AuthEntryValue::Key("sk-x".to_string()),
    )]);
    let providers = StrMap::new();
    assert!(auth_env_assignments(&auth, &providers).is_empty());
}

#[test]
fn codexium_dir_is_under_codex_home() {
    let home = "/tmp/some-codex-home";
    assert_eq!(
        codexium_dir(home),
        std::path::Path::new(home).join(CODEXIUM_DIR_NAME).to_string_lossy()
    );
}

#[test]
fn load_registry_prefers_persisted_when_newer_or_present() {
    let bundled = ProviderRegistry { version: "1.0.0".to_string(), providers: vec![] };
    let newer = ProviderRegistry {
        version: "99.0.0".to_string(),
        providers: vec![RegistryProvider {
            id: "custom-test".to_string(),
            name: "Test".to_string(),
            provider_type: String::new(),
            recommended: false,
            description: None,
            base_url: None,
            env_key: None,
            icon: None,
            models: vec![],
        }],
    };
    let loaded = select_registry(Some(newer), bundled);
    assert_eq!(loaded.version, "99.0.0");
    assert_eq!(loaded.providers.len(), 1);
    assert_eq!(loaded.providers[0].id, "custom-test");
}

#[test]
fn load_registry_falls_back_to_bundled_when_persisted_is_older_or_absent() {
    let bundled = ProviderRegistry { version: "2.1.0".to_string(), providers: vec![] };
    let older = ProviderRegistry { version: "2.0.9".to_string(), providers: vec![] };
    assert_eq!(select_registry(Some(older), bundled).version, "2.1.0");
    let bundled = ProviderRegistry { version: "2.1.0".to_string(), providers: vec![] };
    assert_eq!(select_registry(None, bundled).version, "2.1.0");
    let bundled = ProviderRegistry { version: "2.1.0".to_string(), providers: vec![] };
    let same = ProviderRegistry { version: "2.1".to_string(), providers: vec![] };
    assert_eq!(select_registry(Some(same), bundled).version, "2.1");
}

#[test]
fn build_model_catalog_openai_does_not_duplicate_and_hides_disabled() {
    let mut openai = provider(
        Some("OpenAI"),
        vec![
            ("gpt-5.4", model(false, Some("Disabled GPT-5.4"))),
            ("gpt-5.5", model(true, Some("Enabled GPT-5.5"))),
        ],
    );
    openai.requires_openai_auth = true;
    openai.readonly = true;
    let file = file(vec![("openai", openai)]);
    let catalog = build_model_catalog(&file, vec![bundled("gpt-5.4"), bundled("gpt-5.5")], &fallback());
    // No `openai.`-prefixed duplicates should be minted.
    assert!(!catalog.iter().any(|m| m.slug.starts_with("openai.")));
    assert_eq!(catalog.len(), 2);
    let disabled = catalog.iter().find(|m| m.slug == "gpt-5.4").expect("gpt-5.4 exists");
    assert_eq!(disabled.visibility, ModelVisibility::Hide);
    let enabled = catalog.iter().find(|m| m.slug == "gpt-5.5").expect("gpt-5.5 exists");
    assert_eq!(enabled.visibility, ModelVisibility::List);
    assert_eq!(enabled.display_name, "Enabled GPT-5.5");
}

#[test]
fn apply_codexium_visibility_applies_label_and_enable_state() {
    let mut openai = provider(
        Some("OpenAI"),
        vec![
            ("gpt-5.4", model(false, Some("Renamed GPT-5.4"))),
            ("gpt-5.5", model(true, None)),
        ],
    );
    openai.readonly = true;
    let file = file(vec![("openai", openai)]);
    let presets = vec![preset("gpt-5.4", None, false, true), preset("gpt-5.5", None, false, true)];
    let out = apply_codexium_visibility(&file, presets, &fallback());
    let p54 = out.iter().find(|p| p.model == "gpt-5.4").expect("gpt-5.4");
    assert!(!p54.show_in_picker);
    assert_eq!(p54.display_name, "Renamed GPT-5.4");
    let p55 = out.iter().find(|p| p.model == "gpt-5.5").expect("gpt-5.5");
    assert!(p55.show_in_picker);
    // The first preset shown in the picker is the default.
    assert!(p55.is_default);
    assert!(!p54.is_default);
}

#[test]
fn apply_codexium_visibility_deletes_removed_custom_model_and_adds_new() {
    let mut deepseek = provider(Some("DeepSeek"), vec![("deepseek-chat", model(true, Some("DeepSeek V3")))]);
    deepseek.base_url = Some("https://api.deepseek.com".to_string());
    deepseek.env_key = Some("DEEPSEEK_API_KEY".to_string());
    let file = file(vec![("deepseek", deepseek)]);
    let presets = vec![
        custom_preset("deepseek", "deepseek-chat", true),
        custom_preset("deepseek", "deepseek-reasoner", true),
    ];
    let out = apply_codexium_visibility(&file, presets, &fallback());
    let chat = out.iter().find(|p| p.model == "deepseek.deepseek-chat");
    assert!(chat.expect("deepseek-chat present").show_in_picker);
    // The removed model is hidden.
    let reasoner = out.iter().find(|p| p.model == "deepseek.deepseek-reasoner");
    assert!(!reasoner.expect("deepseek-reasoner present").show_in_picker);
    assert!(out.iter().any(|p| p.is_default));
}

#[test]
fn apply_codexium_visibility_adds_presets_for_new_enabled_custom_models() {
    let file = file(vec![(
        "kimi",
        provider(Some("Kimi"), vec![("k3", model(true, Some("Kimi K3"))), ("k2", model(false, None))]),
    )]);
    let out = apply_codexium_visibility(&file, vec![preset("gpt-5.5", None, false, false)], &fallback());
    assert_eq!(out.len(), 2);
    let added = &out[1];
    assert_eq!(added.model, "kimi.k3");
    assert_eq!(added.display_name, "Kimi K3");
    assert!(added.is_custom);
    assert_eq!(added.provider.as_deref(), Some("kimi"));
    assert_eq!(added.provider_label.as_deref(), Some("Kimi"));
    assert!(added.show_in_picker);
    assert!(added.is_default);
    assert!(!out[0].is_default);
}

fn provider_with_env_key(id: &str, env_key: &str) -> (String, ModelProviderInfo) {
    (id.to_string(), runtime_provider(env_key))
}

#[test]
fn provider_with_env_key_helper_builds_provider() {
    let (id, provider) = provider_with_env_key("kimi", "KIMI_API_KEY");
    assert_eq!(id, "kimi");
    assert_eq!(provider.env_key.as_deref(), Some("KIMI_API_KEY"));
}

#[test]
fn env_exports_never_overwrite_and_first_key_wins() {
    let assignments = vec![
        ("SHARED_KEY".to_string(), "first".to_string()),
        ("SET_KEY".to_string(), "ignored".to_string()),
        ("SHARED_KEY".to_string(), "second".to_string()),
        ("OTHER_KEY".to_string(), "other".to_string()),
    ];
    let mut already_set = StrMap::new();
    already_set.insert("SET_KEY".to_string(), ());
    let exports = codexium_core::env_exports(assignments, &already_set);
    assert_eq!(
        exports,
        vec![
            ("SHARED_KEY".to_string(), "first".to_string()),
            ("OTHER_KEY".to_string(), "other".to_string()),
        ]
    );
}

#[test]
fn provider_config_form_needs_an_object_with_models() {
    let structured = codexium_core::ProviderConfigForm::Structured;
    let legacy = codexium_core::ProviderConfigForm::LegacyModels;
    assert_eq!(codexium_core::provider_config_form(true, true), structured);
    assert_eq!(codexium_core::provider_config_form(true, false), legacy);
    assert_eq!(codexium_core::provider_config_form(false, false), legacy);
}
