use codexium_core::{
    bearer_value, builtin_openai_models, check_message, check_target, check_verdict,
    models_endpoint, provider_ids_to_check, refresh_registry, CheckVerdict, CodexiumModelConfig,
    CodexiumModelSettings, CodexiumModelsFile, CodexiumModelsWriteParams, CodexiumProviderConfig,
    CodexiumProviderSettings, CodexiumProvidersCheckParams, CodexiumProvidersConnectParams,
    CodexiumProvidersDisconnectParams, CodexiumRegistryModel, CodexiumRequestProcessor,
    ConfigShellToolType, ModelInfo, ModelVisibility, ProviderCheckTarget, ProviderRegistry,
    RegistryModel, RegistryProvider, StrMap, TruncationPolicyConfig,
};

fn processor() -> CodexiumRequestProcessor {
    CodexiumRequestProcessor::new("/tmp/codex-home".to_string())
}

fn settings(enabled: bool, label: Option<&str>) -> CodexiumModelSettings {
    CodexiumModelSettings {
        enabled,
        label: label.map(str::to_string),
        description: None,
        context_window: None,
        max_context_window: None,
        auto_compact_token_limit: None,
        max_output_tokens: None,
        tool_output_token_limit: None,
    }
}

fn wire_provider(label: &str, readonly: bool, models: Vec<(&str, CodexiumModelSettings)>) -> CodexiumProviderSettings {
    let mut map = StrMap::new();
    for (slug, s) in models {
        map.insert(slug.to_string(), s);
    }
    CodexiumProviderSettings {
        label: Some(label.to_string()),
        base_url: None,
        env_key: None,
        wire_api: None,
        requires_openai_auth: false,
        readonly,
        provider_type: None,
        icon: None,
        models: map,
    }
}

fn stored_model(enabled: bool, label: Option<&str>) -> CodexiumModelConfig {
    CodexiumModelConfig {
        enabled,
        label: label.map(str::to_string),
        description: None,
        context_window: None,
        max_context_window: None,
        auto_compact_token_limit: None,
        max_output_tokens: None,
        tool_output_token_limit: None,
        shell_type: Some(ConfigShellToolType::Local),
    }
}

fn stored_provider(base_url: Option<&str>, env_key: Option<&str>, models: Vec<(&str, CodexiumModelConfig)>) -> CodexiumProviderConfig {
    let mut map = StrMap::new();
    for (slug, c) in models {
        map.insert(slug.to_string(), c);
    }
    CodexiumProviderConfig {
        label: Some("Stored".to_string()),
        base_url: base_url.map(str::to_string),
        env_key: env_key.map(str::to_string),
        wire_api: None,
        requires_openai_auth: true,
        readonly: true,
        provider_type: Some("custom".to_string()),
        icon: None,
        name: Some("Stored Name".to_string()),
        models: map,
    }
}

fn models_file(providers: Vec<(&str, CodexiumProviderConfig)>) -> CodexiumModelsFile {
    let mut map = StrMap::new();
    for (id, p) in providers {
        map.insert(id.to_string(), p);
    }
    CodexiumModelsFile { providers: map }
}

fn builtin() -> Vec<(String, String, Option<String>)> {
    vec![
        ("gpt-5.4".to_string(), "GPT-5.4".to_string(), Some("fast".to_string())),
        ("gpt-5.5".to_string(), "GPT-5.5".to_string(), None),
    ]
}

fn catalog_model(slug: &str) -> ModelInfo {
    ModelInfo {
        slug: slug.to_string(),
        display_name: slug.to_uppercase(),
        description: None,
        context_window: None,
        max_context_window: None,
        auto_compact_token_limit: None,
        max_output_tokens: None,
        truncation_policy: TruncationPolicyConfig::Tokens(1),
        shell_type: ConfigShellToolType::Default,
        visibility: ModelVisibility::List,
        priority: 1,
        used_fallback_model_metadata: false,
        is_custom: false,
        provider: None,
        provider_label: None,
    }
}

fn connect_params(id: &str) -> CodexiumProvidersConnectParams {
    CodexiumProvidersConnectParams {
        provider_id: id.to_string(),
        label: None,
        base_url: None,
        env_key: None,
        provider_type: None,
        icon: None,
        api_key: None,
        models: vec![],
    }
}

fn registry_model(name: &str, label: &str) -> CodexiumRegistryModel {
    CodexiumRegistryModel {
        name: name.to_string(),
        label: Some(label.to_string()),
        context_window: Some(128_000),
        max_output_tokens: Some(4096),
        input: Some(0.5f64.to_bits()),
        output: None,
        description: Some("from the registry".to_string()),
    }
}

#[test]
fn builtin_openai_models_skip_the_auto_review_model() {
    let mut described = catalog_model("gpt-5.5");
    described.description = Some("smart".to_string());
    let models = builtin_openai_models(vec![catalog_model("gpt-5.4"), catalog_model("codex-auto-review"), described]);
    assert_eq!(
        models,
        vec![
            ("gpt-5.4".to_string(), "GPT-5.4".to_string(), None),
            ("gpt-5.5".to_string(), "GPT-5.5".to_string(), Some("smart".to_string())),
        ]
    );
}

#[test]
fn models_read_always_lists_the_readonly_openai_provider() {
    let file = models_file(vec![("deepseek", stored_provider(Some("https://api.deepseek.com"), None, vec![("chat", stored_model(false, Some("Chat")))]))]);
    let response = processor().models_read(file, builtin());
    let openai = response.providers.get("openai").expect("openai listed");
    assert_eq!(openai.label.as_deref(), Some("OpenAI"));
    assert!(openai.readonly);
    assert!(openai.requires_openai_auth);
    assert_eq!(openai.wire_api.as_deref(), Some("responses"));
    assert_eq!(openai.provider_type.as_deref(), Some("openai"));
    assert_eq!(openai.icon.as_deref(), Some("openai"));
    assert_eq!(openai.models.len(), 2);
    let gpt54 = openai.models.get("gpt-5.4").expect("bundled model");
    assert!(gpt54.enabled);
    assert_eq!(gpt54.label.as_deref(), Some("GPT-5.4"));
    assert_eq!(gpt54.description.as_deref(), Some("fast"));

    let deepseek = response.providers.get("deepseek").expect("stored provider");
    assert_eq!(deepseek.base_url.as_deref(), Some("https://api.deepseek.com"));
    let chat = deepseek.models.get("chat").expect("stored model");
    assert!(!chat.enabled);
    assert_eq!(chat.label.as_deref(), Some("Chat"));
    assert_eq!(response.providers.len(), 2);
}

#[test]
fn models_read_overlays_stored_openai_state() {
    let file = models_file(vec![(
        "openai",
        stored_provider(None, None, vec![("gpt-5.4", stored_model(false, Some("ignored label"))), ("legacy", stored_model(true, Some("Legacy")))]),
    )]);
    let response = processor().models_read(file, builtin());
    let openai = response.providers.get("openai").expect("openai listed");
    let gpt54 = openai.models.get("gpt-5.4").expect("bundled");
    assert!(!gpt54.enabled);
    assert_eq!(gpt54.label.as_deref(), Some("GPT-5.4"));
    assert!(openai.models.get("gpt-5.5").expect("bundled").enabled);
    assert_eq!(openai.models.get("legacy").expect("stored only").label.as_deref(), Some("Legacy"));
    assert_eq!(openai.label.as_deref(), Some("OpenAI"));
}

#[test]
fn models_write_stores_only_the_openai_enable_state() {
    let mut providers = StrMap::new();
    let mut openai = wire_provider("OpenAI", true, vec![("gpt-5.4", settings(false, Some("Renamed")))]);
    openai.icon = Some("openai".to_string());
    openai.requires_openai_auth = true;
    providers.insert("openai".to_string(), openai);
    providers.insert("kimi".to_string(), wire_provider("Kimi", false, vec![("k3", settings(true, Some("K3")))]));
    let file = processor().models_write(CodexiumModelsWriteParams { providers });
    let openai = file.providers.get("openai").expect("openai enable state persisted");
    assert_eq!(openai.label, None);
    assert_eq!(openai.icon, None);
    assert!(!openai.readonly);
    assert!(!openai.requires_openai_auth);
    let gpt54 = openai.models.get("gpt-5.4").expect("gpt-5.4");
    assert!(!gpt54.enabled);
    assert_eq!(gpt54.label, None);
    let kimi = file.providers.get("kimi").expect("kimi persisted");
    assert_eq!(kimi.label.as_deref(), Some("Kimi"));
    assert_eq!(kimi.name, None);
    let k3 = kimi.models.get("k3").expect("k3");
    assert_eq!(k3.shell_type, None);
    assert_eq!(k3.label.as_deref(), Some("K3"));
}

#[test]
fn models_write_then_read_gives_back_the_written_settings() {
    let mut providers = StrMap::new();
    providers.insert("openai".to_string(), wire_provider("OpenAI", true, vec![("gpt-5.5", settings(false, None))]));
    let mut kimi = wire_provider("Kimi", false, vec![("k3", settings(true, Some("K3")))]);
    kimi.base_url = Some("https://api.moonshot.ai/v1".to_string());
    kimi.env_key = Some("KIMI_API_KEY".to_string());
    providers.insert("kimi".to_string(), kimi);
    let file = processor().models_write(CodexiumModelsWriteParams { providers });
    let response = processor().models_read(file, builtin());
    let kimi = response.providers.get("kimi").expect("kimi read back");
    assert_eq!(kimi.label.as_deref(), Some("Kimi"));
    assert_eq!(kimi.base_url.as_deref(), Some("https://api.moonshot.ai/v1"));
    assert_eq!(kimi.env_key.as_deref(), Some("KIMI_API_KEY"));
    assert!(!kimi.readonly);
    let k3 = kimi.models.get("k3").expect("k3");
    assert!(k3.enabled);
    assert_eq!(k3.label.as_deref(), Some("K3"));
    let openai = response.providers.get("openai").expect("openai");
    assert!(!openai.models.get("gpt-5.5").expect("gpt-5.5").enabled);
    assert!(openai.models.get("gpt-5.4").expect("gpt-5.4").enabled);
}

#[test]
fn models_paths_live_in_the_codexium_folder() {
    let p = processor();
    let dir = std::path::Path::new("/tmp/codex-home").join("codexium");
    assert_eq!(p.models_path(), dir.join("models.json").to_string_lossy());
    assert_eq!(p.auth_path(), dir.join("auth.json").to_string_lossy());
}

#[test]
fn providers_connect_refuses_the_reserved_openai_provider() {
    let err = processor()
        .providers_connect(models_file(vec![]), StrMap::new(), connect_params("openai"))
        .err()
        .expect("refused");
    assert_eq!(err.message, "cannot connect the reserved `openai` provider");
}

#[test]
fn providers_connect_creates_provider_with_default_env_key() {
    let mut params = connect_params("deepseek");
    params.label = Some("DeepSeek".to_string());
    params.base_url = Some("https://api.deepseek.com".to_string());
    params.provider_type = Some("apiKey".to_string());
    params.icon = Some("deepseek".to_string());
    params.api_key = Some("sk-123".to_string());
    params.models = vec![registry_model("deepseek-chat", "DeepSeek Chat")];
    let out = processor()
        .providers_connect(models_file(vec![]), StrMap::new(), params)
        .ok()
        .expect("connected");
    let provider = out.models_file.providers.get("deepseek").expect("stored");
    assert_eq!(provider.label.as_deref(), Some("DeepSeek"));
    assert_eq!(provider.base_url.as_deref(), Some("https://api.deepseek.com"));
    assert_eq!(provider.env_key.as_deref(), Some("DEEPSEEK_API_KEY"));
    assert_eq!(provider.wire_api.as_deref(), Some("responses"));
    assert_eq!(provider.provider_type.as_deref(), Some("apiKey"));
    assert_eq!(provider.icon.as_deref(), Some("deepseek"));
    assert!(!provider.requires_openai_auth);
    assert!(!provider.readonly);
    let chat = provider.models.get("deepseek-chat").expect("seeded");
    assert!(chat.enabled);
    assert_eq!(chat.label.as_deref(), Some("DeepSeek Chat"));
    assert_eq!(chat.context_window, Some(128_000));
    assert_eq!(chat.max_output_tokens, Some(4096));
    assert_eq!(chat.description.as_deref(), Some("from the registry"));
    let auth = out.auth_providers.expect("auth written");
    assert_eq!(auth.get("deepseek").map(String::as_str), Some("sk-123"));
    assert_eq!(out.key_export, Some(("DEEPSEEK_API_KEY".to_string(), "sk-123".to_string())));
}

#[test]
fn providers_connect_preserves_stored_state() {
    let file = models_file(vec![
        ("kimi", stored_provider(Some("https://old"), Some("MY_KIMI"), vec![("k3", stored_model(false, Some("Mine"))), ("old", stored_model(true, None))])),
        ("other", stored_provider(None, None, vec![])),
    ]);
    let mut params = connect_params("kimi");
    params.base_url = Some("https://api.moonshot.ai/v1".to_string());
    params.api_key = Some(String::new());
    params.models = vec![registry_model("k3", "Kimi K3"), registry_model("k4", "Kimi K4")];
    let out = processor().providers_connect(file, StrMap::new(), params).ok().expect("connected");
    let kimi = out.models_file.providers.get("kimi").expect("stored");
    assert_eq!(kimi.base_url.as_deref(), Some("https://api.moonshot.ai/v1"));
    assert_eq!(kimi.env_key.as_deref(), Some("MY_KIMI"));
    assert_eq!(kimi.label.as_deref(), Some("Stored"));
    assert_eq!(kimi.name.as_deref(), Some("Stored Name"));
    assert!(!kimi.readonly);
    // The stored model keeps its state; the old model not in the registry list is replaced away.
    let k3 = kimi.models.get("k3").expect("k3");
    assert!(!k3.enabled);
    assert_eq!(k3.label.as_deref(), Some("Mine"));
    assert_eq!(k3.shell_type, Some(ConfigShellToolType::Local));
    assert!(kimi.models.get("k4").expect("k4").enabled);
    assert!(!kimi.models.contains_key("old"));
    assert!(out.models_file.providers.contains_key("other"));
    // An empty key is not stored.
    assert!(out.auth_providers.is_none());
    assert!(out.key_export.is_none());
}

#[test]
fn providers_connect_without_models_keeps_stored_models() {
    let file = models_file(vec![("kimi", stored_provider(None, None, vec![("k3", stored_model(true, None))]))]);
    let out = processor().providers_connect(file, StrMap::new(), connect_params("kimi")).ok().expect("connected");
    let kimi = out.models_file.providers.get("kimi").expect("stored");
    assert_eq!(kimi.models.len(), 1);
    assert!(kimi.models.contains_key("k3"));
    assert_eq!(kimi.env_key.as_deref(), Some("KIMI_API_KEY"));
}

#[test]
fn providers_disconnect_removes_provider_from_both_files() {
    let file = models_file(vec![("kimi", stored_provider(None, None, vec![])), ("other", stored_provider(None, None, vec![]))]);
    let mut auth = StrMap::new();
    auth.insert("kimi".to_string(), "sk-k".to_string());
    auth.insert("other".to_string(), "sk-o".to_string());
    let out = processor()
        .providers_disconnect(file, auth, CodexiumProvidersDisconnectParams { provider_id: "kimi".to_string() })
        .ok()
        .expect("disconnected");
    assert!(!out.models_file.providers.contains_key("kimi"));
    assert!(out.models_file.providers.contains_key("other"));
    assert!(!out.auth_providers.contains_key("kimi"));
    assert_eq!(out.auth_providers.get("other").map(String::as_str), Some("sk-o"));

    let err = processor()
        .providers_disconnect(models_file(vec![]), StrMap::new(), CodexiumProvidersDisconnectParams { provider_id: "openai".to_string() })
        .err()
        .expect("refused");
    assert_eq!(err.message, "cannot disconnect the reserved `openai` provider");
}

#[test]
fn connect_then_disconnect_leaves_no_trace() {
    let file = models_file(vec![("other", stored_provider(None, None, vec![]))]);
    let mut params = connect_params("kimi");
    params.api_key = Some("sk-k".to_string());
    let out = processor().providers_connect(file, StrMap::new(), params).ok().expect("connected");
    let auth = out.auth_providers.expect("auth written");
    let out = processor()
        .providers_disconnect(out.models_file, auth, CodexiumProvidersDisconnectParams { provider_id: "kimi".to_string() })
        .ok()
        .expect("disconnected");
    assert_eq!(out.models_file.providers.len(), 1);
    assert!(out.models_file.providers.contains_key("other"));
    assert_eq!(out.auth_providers.len(), 0);
}

#[test]
fn provider_ids_to_check_lists_stored_providers_but_openai() {
    let file = models_file(vec![
        ("openai", stored_provider(None, None, vec![])),
        ("kimi", stored_provider(None, None, vec![])),
        ("deepseek", stored_provider(None, None, vec![])),
    ]);
    let all = provider_ids_to_check(&file, &CodexiumProvidersCheckParams { provider_id: None });
    assert_eq!(all, vec!["kimi".to_string(), "deepseek".to_string()]);
    let one = provider_ids_to_check(&file, &CodexiumProvidersCheckParams { provider_id: Some("missing".to_string()) });
    assert_eq!(one, vec!["missing".to_string()]);
}

#[test]
fn check_target_reports_missing_providers_and_base_urls() {
    let file = models_file(vec![
        ("nourl", stored_provider(None, Some("X_KEY"), vec![])),
        ("empty", stored_provider(Some(""), None, vec![])),
        ("kimi", stored_provider(Some("https://api.moonshot.ai/v1//"), Some("KIMI_API_KEY"), vec![])),
        ("deepseek", stored_provider(Some("https://api.deepseek.com"), None, vec![])),
    ]);
    let mut auth = StrMap::new();
    auth.insert("deepseek".to_string(), "sk-d".to_string());
    assert!(matches!(check_target(&file, &auth, "missing"), ProviderCheckTarget::NotConfigured));
    assert!(matches!(check_target(&file, &auth, "nourl"), ProviderCheckTarget::NoBaseUrl));
    assert!(matches!(check_target(&file, &auth, "empty"), ProviderCheckTarget::NoBaseUrl));
    match check_target(&file, &auth, "kimi") {
        ProviderCheckTarget::Endpoint { url, api_key, env_key } => {
            assert_eq!(url, "https://api.moonshot.ai/v1/models");
            assert_eq!(api_key, None);
            assert_eq!(env_key.as_deref(), Some("KIMI_API_KEY"));
        }
        _ => panic!("kimi has an endpoint"),
    }
    match check_target(&file, &auth, "deepseek") {
        ProviderCheckTarget::Endpoint { url, api_key, env_key } => {
            assert_eq!(url, "https://api.deepseek.com/models");
            assert_eq!(api_key.as_deref(), Some("sk-d"));
            assert_eq!(env_key, None);
        }
        _ => panic!("deepseek has an endpoint"),
    }
}

#[test]
fn check_messages_classify_status_codes() {
    assert_eq!(check_message(200, "200 OK"), (true, "OK (200 OK)".to_string()));
    assert_eq!(check_message(401, "401 Unauthorized"), (false, "unauthorized (401 Unauthorized)".to_string()));
    assert_eq!(check_message(403, "403 Forbidden"), (false, "unauthorized (403 Forbidden)".to_string()));
    assert_eq!(check_message(404, "404 Not Found"), (false, "not found (404 Not Found)".to_string()));
    assert_eq!(check_message(500, "500 Internal Server Error"), (false, "responded (500)".to_string()));
    assert_eq!(check_message(204, "204 No Content"), (true, "responded (204)".to_string()));
    assert_eq!(check_message(302, "302 Found"), (false, "responded (302)".to_string()));
    assert_eq!(check_message(7, "7"), (false, "responded (7)".to_string()));
    assert_eq!(check_verdict(302), CheckVerdict::Responded);
    assert_eq!(models_endpoint("/"), "/models");
    assert_eq!(models_endpoint(""), "/models");
    assert_eq!(bearer_value("sk-1"), "Bearer sk-1");
}

#[test]
fn registry_response_carries_every_field() {
    let registry = ProviderRegistry {
        version: "1.4.0".to_string(),
        providers: vec![RegistryProvider {
            id: "deepseek".to_string(),
            name: "DeepSeek".to_string(),
            provider_type: "apiKey".to_string(),
            recommended: true,
            description: Some("cheap".to_string()),
            base_url: Some("https://api.deepseek.com".to_string()),
            env_key: Some("DEEPSEEK_API_KEY".to_string()),
            icon: Some("deepseek".to_string()),
            models: vec![RegistryModel {
                name: "deepseek-chat".to_string(),
                label: Some("Chat".to_string()),
                context_window: Some(64_000),
                max_output_tokens: Some(8_000),
                input: Some(0.27f64.to_bits()),
                output: Some(1.1f64.to_bits()),
                description: None,
            }],
        }],
    };
    let response = processor().registry_response(registry, true);
    assert_eq!(response.version, "1.4.0");
    assert!(response.refreshed);
    let p = &response.providers[0];
    assert_eq!(p.id, "deepseek");
    assert!(p.recommended);
    assert_eq!(p.env_key.as_deref(), Some("DEEPSEEK_API_KEY"));
    let m = &p.models[0];
    assert_eq!(m.name, "deepseek-chat");
    assert_eq!(m.input.map(f64::from_bits), Some(0.27));
    assert_eq!(m.output.map(f64::from_bits), Some(1.1));
}

#[test]
fn refresh_registry_replaces_only_with_an_update() {
    let current = ProviderRegistry { version: "1.2.0".to_string(), providers: vec![] };
    let fetched = ProviderRegistry { version: "1.3.0".to_string(), providers: vec![] };
    let (registry, refreshed) = refresh_registry(current, Some(fetched));
    assert_eq!(registry.version, "1.3.0");
    assert!(refreshed);
    let current = ProviderRegistry { version: "1.2.0".to_string(), providers: vec![] };
    let major = ProviderRegistry { version: "2.0.0".to_string(), providers: vec![] };
    let (registry, refreshed) = refresh_registry(current, Some(major));
    assert_eq!(registry.version, "1.2.0");
    assert!(!refreshed);
    let current = ProviderRegistry { version: "1.2.0".to_string(), providers: vec![] };
    let (registry, refreshed) = refresh_registry(current, None);
    assert_eq!(registry.version, "1.2.0");
    assert!(!refreshed);
}

#[test]
fn provider_status_reports_each_target() {
    let missing = codexium_core::provider_status("gone".to_string(), &ProviderCheckTarget::NotConfigured, None, 17, 1_700);
    assert_eq!(missing.provider_id, "gone");
    assert!(!missing.ok);
    assert_eq!(missing.message, "provider not configured");
    assert_eq!(missing.latency_ms, 0);
    assert_eq!(missing.checked_at, 1_700);

    let no_url = codexium_core::provider_status("kimi".to_string(), &ProviderCheckTarget::NoBaseUrl, None, 3, 1_701);
    assert!(!no_url.ok);
    assert_eq!(no_url.message, "no base URL configured");
    assert_eq!(no_url.latency_ms, 3);

    let endpoint = || ProviderCheckTarget::Endpoint { url: "https://a/models".to_string(), api_key: None, env_key: None };
    let ok = codexium_core::provider_status("a".to_string(), &endpoint(), Some(Ok((200, "200 OK".to_string()))), 40, 1);
    assert!(ok.ok);
    assert_eq!(ok.message, "OK (200 OK)");
    assert_eq!(ok.latency_ms, 40);
    let down = codexium_core::provider_status("a".to_string(), &endpoint(), Some(Ok((503, "503 Service Unavailable".to_string()))), 5, 1);
    assert!(!down.ok);
    assert_eq!(down.message, "responded (503)");
    let failed = codexium_core::provider_status("a".to_string(), &endpoint(), Some(Err("connection refused".to_string())), 5, 1);
    assert!(!failed.ok);
    assert_eq!(failed.message, "connection refused");
    let slow = codexium_core::provider_status("a".to_string(), &endpoint(), Some(Err("timeout".to_string())), u128::MAX, 1);
    assert_eq!(slow.latency_ms, i64::MAX);
}
