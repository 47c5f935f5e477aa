use std::collections::HashSet;

use codexium_core::{
    build_shadow_query, normalize_skill_resource, push_bounded, sanitize_selected_ids,
    CheapSkillSelection, RecentSkillInvocations, ShadowSelectionExperiment, SkillCatalogEntry,
    SkillSourceKind, UserInput, MAX_SHADOW_QUERY_BYTES,
    MAX_SHADOW_RESULTS,
};

#[test]
fn recent_invocations_refresh_recency_and_evict_old_skills() {
    let mut history = RecentSkillInvocations::new();
    for index in 0..=MAX_SHADOW_RESULTS {
        history.record(&format!("skill-{index}"));
    }
    history.record("skill-1");

    let recent = history.snapshot();

    assert_eq!(MAX_SHADOW_RESULTS, recent.len());
    assert_eq!(Some("skill-1"), recent.first().map(String::as_str));
    assert_eq!(Some("skill-2"), recent.last().map(String::as_str));
    assert!(!recent.iter().any(|skill| skill == "skill-0"));
}

#[test]
fn push_bounded_keeps_whole_characters_within_limit() {
    let mut out = "a".repeat(MAX_SHADOW_QUERY_BYTES - 2);
    assert!(!push_bounded(&mut out, "bé"));
    assert_eq!(out.len(), MAX_SHADOW_QUERY_BYTES - 1);
    assert!(out.ends_with('b'));
    assert!(push_bounded(&mut out, "c"));
    assert!(!push_bounded(&mut out, "d"));
    assert_eq!(out.len(), MAX_SHADOW_QUERY_BYTES);
    assert!(out.ends_with('c'));
    let mut small = String::from("ab");
    assert!(push_bounded(&mut small, "cd"));
    assert_eq!(small, "abcd");
}

#[test]
fn build_shadow_query_joins_texts_with_spaces() {
    let inputs = vec![
        UserInput::Text { text: "fix the build".to_string() },
        UserInput::Other,
        UserInput::Text { text: String::new() },
        UserInput::Skill { name: "rust".to_string() },
        UserInput::Mention { name: "cargo".to_string() },
    ];
    let query = build_shadow_query(&inputs);
    assert_eq!(query.text, "fix the build rust cargo");
    assert!(!query.truncated);
}

#[test]
fn build_shadow_query_stops_at_the_byte_bound() {
    let long = "x".repeat(MAX_SHADOW_QUERY_BYTES);
    let inputs = vec![
        UserInput::Text { text: "head".to_string() },
        UserInput::Text { text: long },
        UserInput::Text { text: "tail".to_string() },
    ];
    let query = build_shadow_query(&inputs);
    assert!(query.truncated);
    assert_eq!(query.text.len(), MAX_SHADOW_QUERY_BYTES);
    assert!(query.text.starts_with("head x"));
    assert!(!query.text.contains("tail"));
}

#[test]
fn normalize_skill_resource_uses_forward_slashes() {
    assert_eq!(normalize_skill_resource(r"C:\skills\rust\SKILL.md"), "C:/skills/rust/SKILL.md");
    assert_eq!(normalize_skill_resource("skills/a.md"), "skills/a.md");
}

#[test]
fn sanitize_selected_ids_keeps_first_eligible_occurrences() {
    let selection = CheapSkillSelection {
        candidate_ids: vec![3, 1, 3, 7, 2, 1],
        query_term_count: 2,
        query_truncated: false,
        candidate_set_truncated: false,
    };
    let eligible: HashSet<usize> = [1, 2, 3].into_iter().collect();
    assert_eq!(sanitize_selected_ids(&selection, &eligible), vec![3, 1, 2]);
}

#[test]
fn sanitize_selected_ids_caps_the_result_count() {
    let selection = CheapSkillSelection {
        candidate_ids: (0..200).collect(),
        query_term_count: 1,
        query_truncated: false,
        candidate_set_truncated: true,
    };
    let eligible: HashSet<usize> = (0..200).collect();
    let ids = sanitize_selected_ids(&selection, &eligible);
    assert_eq!(ids.len(), MAX_SHADOW_RESULTS);
    assert_eq!(ids, (0..MAX_SHADOW_RESULTS).collect::<Vec<_>>());
}

#[test]
fn shadow_experiment_records_each_eligible_skill_once_per_turn() {
    let entry = |prompt: &str, visible: bool, kind: SkillSourceKind| SkillCatalogEntry {
        main_prompt: prompt.to_string(),
        model_visible: visible,
        kind,
    };
    let catalog = vec![
        entry(r"skills\host\SKILL.md", true, SkillSourceKind::Host),
        entry("skills/orch/SKILL.md", true, SkillSourceKind::Orchestrator),
        entry("skills/hidden/SKILL.md", false, SkillSourceKind::Host),
        entry("skills/exec/SKILL.md", true, SkillSourceKind::Executor),
        entry("skills/picked/SKILL.md", true, SkillSourceKind::Host),
    ];
    let explicit = vec![entry(r"skills\picked\SKILL.md", true, SkillSourceKind::Host)];
    let experiment = ShadowSelectionExperiment::new();
    let mut state = experiment.run(&catalog, &explicit);
    assert_eq!(state.eligible_skill_ids_by_resource.len(), 2);
    assert_eq!(state.eligible_skill_ids_by_resource.get("skills/host/SKILL.md"), Some(&0));
    assert_eq!(state.eligible_skill_ids_by_resource.get("skills/orch/SKILL.md"), Some(&1));

    let mut recent = RecentSkillInvocations::new();
    experiment.record_invocation(&mut state, &mut recent, r"skills\host\SKILL.md");
    experiment.record_invocation(&mut state, &mut recent, "skills/orch/SKILL.md");
    experiment.record_invocation(&mut state, &mut recent, "skills/host/SKILL.md");
    experiment.record_invocation(&mut state, &mut recent, "skills/exec/SKILL.md");
    assert_eq!(
        recent.snapshot(),
        vec!["skills/orch/SKILL.md".to_string(), "skills/host/SKILL.md".to_string()]
    );
}
