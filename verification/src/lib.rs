//! Verified core of the Codexium customization layer: provider-registry
//! versioning, turn timing profiles, skill-selection bookkeeping and the
//! per-provider model configuration logic.

mod apps_installed;
mod auth;
mod codexium;
mod env_exports;
mod invocation;
mod model_fallback;
mod plugin_cleanup;
mod processor;
mod protocol;
mod provider_check;
mod provider_requests;
mod registry;
mod reporting;
mod rollout_filter;
mod registry_wire;
mod shadow_selection;
mod str_map;
mod text;
mod turn_profile;
mod turn_timing;
mod version;
mod version_cmp;

pub use version::{
    compare_segments, parse_version_segments, version_order, version_order_antisymmetric, version_order_ignores_trailing_zero,
    version_order_reflexive, version_order_transitive, version_segments,
};
pub use version_cmp::cmp_version;
pub use turn_profile::{
    classified_ms, duration_to_u64_ms, elapsed_since, whole_millis, TurnProfile, TurnProfilePhase,
    TurnProfileState, NANOS_PER_MILLI, completed_profile_covers_turn, profile_operations_keep_consistency,
    started_profile_is_consistent,
};
pub use str_map::StrMap;
pub use text::{concat_strs, strip_prefix_or_self, stripped, joined_path, path_parent, path_starts_with, same_path, texts, uppercase};
pub use turn_timing::{now_unix_timestamp_ms, now_unix_timestamp_secs, TurnProfileTimingGuard, turn_duration_matches_profile, turn_duration_ms, unix_secs_of_ms, TurnTimingState};
pub use shadow_selection::{
    boundary_at_or_below, bounded_append, bounded_append_stays_within_limit, build_shadow_query,
    input_text, shadow_query_of, candidates_by_resource, is_candidate, resources_of,
    candidates_come_from_observed_sources, ShadowSelectionExperiment, ShadowSelectionTurnState, ShadowSelectorMethod, SkillCatalogEntry,
    SkillSourceKind, ShadowQuery, UserInput, eligible_first_occurrences, push_bounded, sanitize_selected_ids,
    sanitized_ids, utf8_len, CheapSkillSelection, normalize_skill_resource, normalized_resource, recorded, recorded_history_is_bounded_recency_list,
    without_first, RecentSkillInvocations, MAX_SHADOW_QUERY_BYTES, MAX_SHADOW_RESULTS,
};
pub use registry::{
    registry_update_is_strict, registry_update_is_transitive, is_registry_update, is_registry_update_spec, major_part, refresh_registry, select_registry,
    ProviderRegistry, RegistryModel, RegistryProvider,
};
pub use protocol::{
    default_true, CodexiumModelSettings, CodexiumModelsReadParams, CodexiumModelsReadResponse,
    CodexiumModelsWriteParams, CodexiumModelsWriteResponse, CodexiumProviderSettings,
    CodexiumProviderStatus, CodexiumProvidersCheckParams, CodexiumProvidersCheckResponse,
    CodexiumProvidersConnectParams, CodexiumProvidersConnectResponse,
    CodexiumProvidersDisconnectParams, CodexiumProvidersDisconnectResponse, CodexiumRegistryModel,
    CodexiumRegistryProvider, CodexiumRegistryReadParams, CodexiumRegistryReadResponse,
};
pub use codexium::{
    first_visible_from, marked_default, configured_models_with_presets_are_not_added_again, mark_default_by_picker_visibility, added_for_provider, added_for_providers, apply_codexium_visibility, codexium_custom_model_preset,
    custom_preset_of, is_codexium_custom, is_custom_preset, managed_models, model_override, override_of,
    preset_from_model_info, preset_of_model, preset_override, preset_views, refreshed_preset, ModelPreset,
    ModelPresetView,
    api_keys_of, apply_openai_model_override, build_model_catalog, catalog_with_provider_models,
    catalog_with_providers, custom_model, first_with_slug, full_slug, model_info_from_config, model_views,
    openai_overridden, opt_text, or_keep, carries_config_metadata, custom_model_carries_its_config, openai_override_carries_its_config, openai_override_without_model_keeps_catalog, provider_label_of, with_custom_model, with_openai_override,
    with_overrides, ModelInfo, ModelInfoView, ModelVisibility, TruncationPolicyConfig, auth_env_assignments, build_codexium_model_providers, env_assignments_upto,
    provider_config_form, ProviderConfigForm, is_runtime_provider_for, provider_display_name, is_codexium_file, models_path, auth_path, registry_path, ensure_default_files, ModelProviderInfo, WireApi, codexium_dir, entry_api_key, AuthEntryValue, CodexiumAuthFile, CodexiumModelConfig,
    CodexiumModelsFile, CodexiumProviderConfig, ConfigShellToolType, AUTH_FILE_NAME, CODEXIUM_DIR_NAME,
    DEFAULT_AUTH_JSON, DEFAULT_MODELS_JSON, MODELS_FILE_NAME, OPENAI_PROVIDER_ID, REGISTRY_FILE_NAME,
};
pub use processor::{
    builtin_openai_models, models_write_stores_each_setting_in_its_field, models_read_reports_each_setting_in_its_field, is_models_read_of, is_models_write_of, models_write_then_read, same_settings, enable_state_config, enable_state_settings, is_enable_state_of, first_keys_of, overlaid, read_openai_models, is_openai_provider, openai_models_of, opt_text_eq, config_of_settings,
    is_config_of, is_settings_of, settings_of_model, CodexiumRequestError,
    CodexiumRequestProcessor, AUTO_REVIEW_MODEL_SLUG,
};
pub use provider_requests::{
    auth_after_connect, connect_keeps_the_given_env_key, connect_then_disconnect, is_connect_outcome, is_disconnect_outcome,
    connected_env_key, fresh_model_config, given_or, is_connected_provider, prior_base_url, prior_env_key,
    prior_icon, prior_label, prior_models, prior_name, prior_provider, prior_provider_type,
    reserved_provider_message, seeded_models, stored_api_key, ProviderConnectOutcome,
    ProviderDisconnectOutcome, API_KEY_ENV_SUFFIX,
};
pub use provider_check::{
    bearer_value, latency_of, provider_status, check_message, check_message_of, check_target, check_verdict, decimal_text,
    digit_char, is_check_list, models_endpoint, models_endpoint_of, provider_ids_to_check,
    push_decimal, trim_trailing_slashes, verdict_of, status_ok, CheckVerdict, ProviderCheckTarget,
    MODELS_ENDPOINT_PATH, NO_BASE_URL_MESSAGE, PROVIDER_NOT_CONFIGURED_MESSAGE,
};
pub use registry_wire::{
    is_wire_model, is_wire_provider, registry_model_to_wire, registry_provider_to_wire,
};
pub use plugin_cleanup::{
    check_plugin_read, cleanup_overrides, mismatched_remote_id_message, missing_remote_id_message,
    require_confirmation, restore_uninstalled_state, state_word, timeout_message,
    wait_for_installed_state_step, AccountMutationConfirmation, DirtyCause, RestorationAction,
    RestorationEvent, RestorationStatus, WaitStep, CONFIRMATION_REQUIRED_MESSAGE,
    POLL_INTERVAL_MS, REMOTE_MARKETPLACE_HINT, STATE_TIMEOUT_MS,
};
pub use apps_installed::{
    apps_runtime_enabled, installed_apps, is_installed_app, refresh_failure, refresh_failure_of,
    runtime_enabled_of, snapshot_plan, unavailable_error, unavailable_message,
    AppsInstalledResponse, ConnectorRuntimeApp, InstalledApp, RefreshOutcome, SnapshotPlan,
    APPS_INSTALLED_SUBMIT_ID, CONNECTOR_RUNTIME_REFRESH_TIMEOUT_MS, REFRESH_FAILURE_PREFIX,
};
pub use invocation::{
    access_matches, detect_executor_skill_invocation, detect_implicit_skill_invocation,
    entry_matches, host_lookup_applies, host_skill_invocation, invocation_announced_once, is_emit_step, maybe_emit_implicit_skill_invocation, ImplicitSkillInvocations, is_host_invocation, is_resource_invocation,
    no_match_before, ExecutorSkillEntry, ImplicitSkillAccess, ImplicitSkillInvocation,
    SCRIPTS_DIR_NAME,
};
pub use reporting::{
    is_plugin_import_error, plugin_import_raw_error, record_import_error,
    record_plugin_import_errors, same_folder, ExternalAgentConfigImportItemResult,
    ExternalAgentConfigImportRawError, ExternalAgentConfigMigrationItemType, PluginImportOutcome,
};
pub use auth::{auth_error_text, transport_error_of, AuthError, TransportError};
pub use model_fallback::{is_model_specific, should_retry_with_current_model, CodexErrorKind};
pub use rollout_filter::{kept_items, measure_and_filter_rollout_items};
pub use env_exports::{
    assigns_var, auth_entry_names, auth_keys_reach_unset_variables, env_after, env_exports, env_exports_keep_set_variables, env_exports_of,
    first_assigned, text_pairs,
};
