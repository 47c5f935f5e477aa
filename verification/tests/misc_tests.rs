use codexium_core::{
    apps_runtime_enabled, check_plugin_read, cleanup_overrides, detect_implicit_skill_invocation,
    installed_apps, maybe_emit_implicit_skill_invocation, measure_and_filter_rollout_items,
    plugin_import_raw_error, record_import_error, record_plugin_import_errors, refresh_failure,
    require_confirmation, restore_uninstalled_state, should_retry_with_current_model,
    snapshot_plan, unavailable_error, wait_for_installed_state_step, AccountMutationConfirmation,
    AuthError, CodexErrorKind, ConnectorRuntimeApp, DirtyCause, ExecutorSkillEntry,
    ExternalAgentConfigImportItemResult, ExternalAgentConfigMigrationItemType, ImplicitSkillAccess,
    ImplicitSkillInvocation, ImplicitSkillInvocations, PluginImportOutcome, RefreshOutcome,
    RestorationAction, RestorationEvent, RestorationStatus, SkillSourceKind, SnapshotPlan,
    TransportError, WaitStep, CONFIRMATION_REQUIRED_MESSAGE,
};

#[test]
fn confirmation_is_required_before_mutating_the_account() {
    assert_eq!(AccountMutationConfirmation::from_flag(true), AccountMutationConfirmation::Confirmed);
    assert_eq!(AccountMutationConfirmation::from_flag(false), AccountMutationConfirmation::Missing);
    assert!(require_confirmation(AccountMutationConfirmation::Confirmed).is_ok());
    let err = require_confirmation(AccountMutationConfirmation::Missing).expect_err("refused");
    assert_eq!(err, CONFIRMATION_REQUIRED_MESSAGE);
    assert!(err.ends_with("rerun with --confirm-account-mutation"));
}

#[test]
fn cleanup_overrides_disable_analytics_and_enable_plugins() {
    let overrides = cleanup_overrides(vec!["model=\"x\"".to_string()]);
    assert_eq!(
        overrides,
        vec![
            "model=\"x\"".to_string(),
            "analytics.enabled=false".to_string(),
            "features.plugins=true".to_string(),
        ]
    );
}

#[test]
fn plugin_read_must_return_the_requested_remote_id() {
    assert_eq!(check_plugin_read("p1", Some("p1".to_string()), true), Ok(true));
    assert_eq!(
        check_plugin_read("p1", None, true),
        Err("plugin/read returned no remote id for `p1`".to_string())
    );
    assert_eq!(
        check_plugin_read("p1", Some("p2".to_string()), false),
        Err("plugin/read returned remote id `p2` for requested id `p1`".to_string())
    );
}

#[test]
fn waiting_for_state_polls_until_reached_or_expired() {
    assert!(matches!(wait_for_installed_state_step::<String>(Ok(false), false, false, "p"), WaitStep::Reached(false)));
    assert!(matches!(wait_for_installed_state_step::<String>(Ok(true), false, false, "p"), WaitStep::PollAgain));
    assert!(matches!(wait_for_installed_state_step(Err("boom".to_string()), false, false, "p"), WaitStep::PollAgain));
    match wait_for_installed_state_step(Err("boom".to_string()), false, true, "p") {
        WaitStep::Failed(e) => assert_eq!(e, "boom"),
        _ => panic!("an expired failing poll gives up with its error"),
    }
    match wait_for_installed_state_step::<String>(Ok(true), false, true, "p") {
        WaitStep::TimedOut(m) => assert_eq!(m, "timed out waiting for remote plugin `p` to become uninstalled"),
        _ => panic!("expired"),
    }
    match wait_for_installed_state_step::<String>(Ok(false), true, true, "q") {
        WaitStep::TimedOut(m) => assert_eq!(m, "timed out waiting for remote plugin `q` to become installed"),
        _ => panic!("expired"),
    }
}

#[test]
fn restoration_classifies_every_outcome() {
    assert!(matches!(restore_uninstalled_state::<String>(RestorationEvent::Read(Ok(false))), RestorationAction::Finish(RestorationStatus::Clean)));
    assert!(matches!(restore_uninstalled_state::<String>(RestorationEvent::Read(Ok(true))), RestorationAction::UninstallAndWait));
    assert!(matches!(
        restore_uninstalled_state(RestorationEvent::Read(Err("read".to_string()))),
        RestorationAction::Finish(RestorationStatus::Unknown(e)) if e == "read"
    ));
    assert!(matches!(
        restore_uninstalled_state::<String>(RestorationEvent::UninstallSettled { uninstall: Ok(()), wait: Ok(false) }),
        RestorationAction::Finish(RestorationStatus::Clean)
    ));
    assert!(matches!(
        restore_uninstalled_state(RestorationEvent::UninstallSettled { uninstall: Err("cache".to_string()), wait: Ok(false) }),
        RestorationAction::Finish(RestorationStatus::LocalCleanupFailure(e)) if e == "cache"
    ));
    assert!(matches!(
        restore_uninstalled_state(RestorationEvent::UninstallSettled { uninstall: Ok(()), wait: Err("state".to_string()) }),
        RestorationAction::Finish(RestorationStatus::Dirty(DirtyCause::StateUnverified(e))) if e == "state"
    ));
    assert!(matches!(
        restore_uninstalled_state(RestorationEvent::UninstallSettled { uninstall: Err("u".to_string()), wait: Err("s".to_string()) }),
        RestorationAction::Finish(RestorationStatus::Dirty(DirtyCause::UninstallAndState(u, s))) if u == "u" && s == "s"
    ));
}

fn entry(id: &str, env: &str, path: &str, enabled: bool, kind: SkillSourceKind) -> ExecutorSkillEntry {
    ExecutorSkillEntry {
        main_prompt: id.to_string(),
        environment_path: Some((env.to_string(), path.to_string())),
        enabled,
        kind,
    }
}

#[test]
fn host_skill_invocation_wins_and_is_keyed_by_path() {
    let host = || Some("/skills/a/SKILL.md".to_string());
    let inv = detect_implicit_skill_invocation("local", "local", Some("/work"), true, host(), &vec![], None)
        .expect("host skill");
    assert_eq!(inv.skill_resource, "/skills/a/SKILL.md");
    assert_eq!(inv.seen_key, "host:/skills/a/SKILL.md");
    // The host snapshot is consulted only for the local environment, with a
    // native working directory and a snapshot.
    assert!(detect_implicit_skill_invocation("remote", "local", Some("/work"), true, host(), &vec![], None).is_none());
    assert!(detect_implicit_skill_invocation("local", "local", None, true, host(), &vec![], None).is_none());
    assert!(detect_implicit_skill_invocation("local", "local", Some("/work"), false, host(), &vec![], None).is_none());
    let entries = vec![entry("skill-a", "remote", "/s/a/SKILL.md", true, SkillSourceKind::Executor)];
    let read = vec![ImplicitSkillAccess::Document("/s/a/SKILL.md".to_string())];
    let inv = detect_implicit_skill_invocation("remote", "local", Some("/work"), true, host(), &read, Some(&entries))
        .expect("executor skill");
    assert_eq!(inv.seen_key, "resource:skill-a");
}

#[test]
fn executor_skill_invocation_matches_documents_and_scripts() {
    let entries = vec![
        entry("disabled", "env1", "/s/a/SKILL.md", false, SkillSourceKind::Executor),
        entry("host", "env1", "/s/a/SKILL.md", true, SkillSourceKind::Host),
        entry("other-env", "env2", "/s/a/SKILL.md", true, SkillSourceKind::Executor),
        entry("skill-a", "env1", "/s/a/SKILL.md", true, SkillSourceKind::Executor),
        entry("skill-b", "env1", "/s/b/SKILL.md", true, SkillSourceKind::Executor),
    ];
    let read = vec![ImplicitSkillAccess::Document("/s/a/SKILL.md".to_string())];
    let inv = detect_implicit_skill_invocation("env1", "local", None, false, None, &read, Some(&entries)).expect("document");
    assert_eq!(inv.skill_resource, "skill-a");
    assert_eq!(inv.seen_key, "resource:skill-a");

    let run = vec![
        ImplicitSkillAccess::Script("/elsewhere/run.sh".to_string()),
        ImplicitSkillAccess::Script("/s/b/scripts/tool/run.sh".to_string()),
    ];
    let inv = detect_implicit_skill_invocation("env1", "local", None, false, None, &run, Some(&entries)).expect("script");
    assert_eq!(inv.skill_resource, "skill-b");

    let outside = vec![ImplicitSkillAccess::Script("/s/b/scriptsx/run.sh".to_string())];
    assert!(detect_implicit_skill_invocation("env1", "local", None, false, None, &outside, Some(&entries)).is_none());
    assert!(detect_implicit_skill_invocation("env1", "local", None, false, None, &read, None).is_none());
}

#[test]
fn implicit_invocation_is_announced_once_per_seen_key() {
    let mut seen = ImplicitSkillInvocations::new();
    let first = ImplicitSkillInvocation { seen_key: "resource:a".to_string(), skill_resource: "a".to_string() };
    assert_eq!(maybe_emit_implicit_skill_invocation(&mut seen, Some(first)), Some("a".to_string()));
    let again = ImplicitSkillInvocation { seen_key: "resource:a".to_string(), skill_resource: "a".to_string() };
    assert_eq!(maybe_emit_implicit_skill_invocation(&mut seen, Some(again)), None);
    assert_eq!(maybe_emit_implicit_skill_invocation(&mut seen, None), None);
    assert!(seen.contains("resource:a"));
}

#[test]
fn import_errors_carry_the_item_context() {
    let mut result = ExternalAgentConfigImportItemResult {
        item_type: ExternalAgentConfigMigrationItemType::Skills,
        cwd: Some("/repo".to_string()),
        errors: Vec::new(),
    };
    record_import_error(&mut result, "copy", Some("permission"), "denied".to_string(), Some("/a".to_string()));
    assert_eq!(result.errors.len(), 1);
    let e = &result.errors[0];
    assert_eq!(e.item_type, ExternalAgentConfigMigrationItemType::Skills);
    assert_eq!(e.error_type, None);
    assert_eq!(e.sub_error_type.as_deref(), Some("permission"));
    assert_eq!(e.failure_stage, "copy");
    assert_eq!(e.message, "denied");
    assert_eq!(e.cwd.as_deref(), Some("/repo"));
    assert_eq!(e.source.as_deref(), Some("/a"));
}

#[test]
fn plugin_import_errors_are_recorded_per_plugin() {
    let mut outcome = PluginImportOutcome { raw_errors: vec![plugin_import_raw_error(None, "earlier", "x".to_string(), None)] };
    let ids = vec!["p1".to_string(), "p2".to_string()];
    record_plugin_import_errors(&mut outcome, Some("/repo"), &ids, "install", "failed".to_string());
    assert_eq!(outcome.raw_errors.len(), 3);
    for (i, id) in ids.iter().enumerate() {
        let e = &outcome.raw_errors[i + 1];
        assert_eq!(e.item_type, ExternalAgentConfigMigrationItemType::Plugins);
        assert_eq!(e.failure_stage, "install");
        assert_eq!(e.message, "failed");
        assert_eq!(e.cwd.as_deref(), Some("/repo"));
        assert_eq!(e.source.as_deref(), Some(id.as_str()));
        assert_eq!(e.sub_error_type, None);
    }
    assert_eq!(outcome.raw_errors[0].failure_stage, "earlier");
}

#[test]
fn auth_errors_map_to_transport_errors() {
    assert!(matches!(TransportError::from(AuthError::Build("b".to_string())), TransportError::Build(m) if m == "b"));
    assert!(matches!(TransportError::from(AuthError::Transient("t".to_string())), TransportError::Network(m) if m == "t"));
    assert_eq!(AuthError::Build("b".to_string()).message(), "request auth build error: b");
    assert_eq!(AuthError::Transient("t".to_string()).message(), "transient auth error: t");
}

#[test]
fn installed_apps_follow_the_runtime_switch() {
    assert!(apps_runtime_enabled(true, true));
    assert!(!apps_runtime_enabled(true, false));
    assert!(matches!(snapshot_plan(true, true, true, None), SnapshotPlan::Refresh { timeout_ms: 30000 }));
    assert!(matches!(snapshot_plan(true, true, true, Some(5)), SnapshotPlan::Refresh { timeout_ms: 5 }));
    assert!(matches!(snapshot_plan(true, true, false, None), SnapshotPlan::Unavailable));
    assert!(matches!(snapshot_plan(true, false, true, None), SnapshotPlan::Cached));
    assert!(matches!(snapshot_plan(false, true, true, None), SnapshotPlan::Cached));
    assert_eq!(
        unavailable_error("codex_apps"),
        "failed to refresh installed connector runtime state: host-owned MCP server 'codex_apps' is not enabled"
    );
    assert_eq!(refresh_failure(RefreshOutcome::Ready { published: true }, "codex_apps"), None);
    assert_eq!(
        refresh_failure(RefreshOutcome::Ready { published: false }, "codex_apps").as_deref(),
        Some("failed to refresh installed connector runtime state: hosted connector refresh completed without publishing a snapshot")
    );
    assert_eq!(
        refresh_failure(RefreshOutcome::NotReady, "codex_apps").as_deref(),
        Some("failed to refresh installed connector runtime state: failed to refresh tools for MCP server 'codex_apps'")
    );
    let app = |id: &str, enabled: bool, callable: bool| ConnectorRuntimeApp {
        id: id.to_string(),
        runtime_name: format!("{id}-runtime"),
        enabled,
        callable,
    };
    let on = installed_apps(true, Some(vec![app("a", true, false), app("b", false, true)]));
    assert_eq!(on.apps.len(), 2);
    assert!(on.apps[0].enabled && !on.apps[0].callable);
    assert!(!on.apps[1].enabled && on.apps[1].callable);
    assert_eq!(on.apps[1].runtime_name, "b-runtime");
    let off = installed_apps(false, Some(vec![app("a", true, true)]));
    assert!(!off.apps[0].enabled && !off.apps[0].callable);
    assert!(installed_apps(true, None).apps.is_empty());
}

#[test]
fn rollout_filter_keeps_policy_items_in_order() {
    let items = vec!["kept-1".to_string(), "dropped".to_string(), "kept-2".to_string()];
    let persisted = measure_and_filter_rollout_items(items, &vec![true, false, true]);
    assert_eq!(persisted, vec!["kept-1".to_string(), "kept-2".to_string()]);
    let payload = vec![vec![1u8, 2, 3]];
    assert_eq!(measure_and_filter_rollout_items(payload.clone(), &vec![true]), payload);
}

#[test]
fn model_specific_failures_are_retried() {
    for kind in [
        CodexErrorKind::InvalidRequest,
        CodexErrorKind::UnexpectedStatus,
        CodexErrorKind::ContextWindowExceeded,
        CodexErrorKind::UsageLimitReached,
        CodexErrorKind::ServerOverloaded,
        CodexErrorKind::InternalServerError,
        CodexErrorKind::RetryLimit,
    ] {
        assert!(should_retry_with_current_model(kind));
    }
    assert!(!should_retry_with_current_model(CodexErrorKind::Other));
}
