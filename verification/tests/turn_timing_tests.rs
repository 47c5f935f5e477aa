use codexium_core::{
    duration_to_u64_ms, now_unix_timestamp_ms, now_unix_timestamp_secs, TurnProfile,
    TurnProfilePhase, TurnProfileState, TurnTimingState,
};

const MS: u64 = 1_000_000;

#[test]
fn turn_timing_state_records_turn_started_epoch_millis() {
    let mut state = TurnTimingState::new();
    let started_at_unix_ms = 1_700_000_123_456i64;
    let returned = state.mark_turn_started(5 * MS, started_at_unix_ms);
    assert_eq!(returned, started_at_unix_ms);
    assert_eq!(state.started_at_unix_secs(), Some(started_at_unix_ms / 1000));
}

#[test]
fn turn_timing_state_tracks_concurrent_items_and_preserves_first_start() {
    let mut state = TurnTimingState::new();

    state.record_item_started("first".to_string(), /*started_at_ms*/ 100);
    state.record_item_started("second".to_string(), /*started_at_ms*/ 200);
    assert_eq!(state.record_item_started("first".to_string(), /*started_at_ms*/ 300), 100);

    assert_eq!(state.take_item_started("second"), Some(200));
    assert_eq!(state.take_item_started("first"), Some(100));
}

#[test]
fn turn_timing_state_preserves_in_flight_items_after_turn_completion() {
    let mut state = TurnTimingState::new();
    state.record_item_started("first".to_string(), /*started_at_ms*/ 100);

    state.mark_turn_started(0, 0);
    assert_eq!(state.take_item_started("first"), None);

    state.record_item_started("second".to_string(), /*started_at_ms*/ 200);
    let _ = state.complete_profile_and_duration_ms(50 * MS, 7);
    assert_eq!(state.take_item_started("second"), Some(200));
}

#[test]
fn turn_profile_breaks_down_sampling_blocking_and_retry_overhead() {
    let started_at = 10 * MS;
    let mut state = TurnProfileState::new();
    state.start(started_at);

    let _ = state.begin_sampling(started_at + 100 * MS);
    state.end_phase(started_at + 600 * MS, TurnProfilePhase::Sampling);
    let _ = state.begin_tool_blocking(started_at + 600 * MS);
    state.end_phase(started_at + 900 * MS, TurnProfilePhase::ToolBlocking);
    state.record_sampling_retry();
    let _ = state.begin_sampling(started_at + 1_000 * MS);
    state.end_phase(started_at + 1_200 * MS, TurnProfilePhase::Sampling);

    assert_eq!(
        state.complete(started_at + 1_300 * MS),
        TurnProfile {
            before_first_sampling_ms: 100,
            sampling_ms: 700,
            compaction_ms: 0,
            between_sampling_overhead_ms: 100,
            tool_blocking_ms: 300,
            after_last_sampling_ms: 100,
            sampling_request_count: 2,
            sampling_retry_count: 1,
        }
    );
}

#[test]
fn turn_profile_counts_compaction_as_an_exclusive_phase() {
    let started_at = 10 * MS;
    let mut state = TurnProfileState::new();
    state.start(started_at);

    let _ = state.begin_compaction(started_at + 100 * MS);
    state.end_phase(started_at + 300 * MS, TurnProfilePhase::Compaction);
    let _ = state.begin_sampling(started_at + 400 * MS);
    state.end_phase(started_at + 700 * MS, TurnProfilePhase::Sampling);
    let _ = state.begin_compaction(started_at + 800 * MS);

    assert_eq!(
        state.complete(started_at + 1_100 * MS),
        TurnProfile {
            before_first_sampling_ms: 200,
            sampling_ms: 300,
            compaction_ms: 500,
            between_sampling_overhead_ms: 0,
            tool_blocking_ms: 0,
            after_last_sampling_ms: 100,
            sampling_request_count: 1,
            sampling_retry_count: 0,
        }
    );
}

#[test]
fn turn_profile_and_duration_share_a_completion_instant() {
    let mut state = TurnTimingState::new();
    let now = 1_000 * MS;
    state.mark_turn_started(now - 100 * MS, 0);

    let (_, duration_ms, profile) = state.complete_profile_and_duration_ms(now, 0);
    let classified_ms = profile.before_first_sampling_ms
        + profile.sampling_ms
        + profile.compaction_ms
        + profile.between_sampling_overhead_ms
        + profile.tool_blocking_ms
        + profile.after_last_sampling_ms;

    assert_eq!(
        duration_ms,
        Some(i64::try_from(classified_ms).expect("profile duration should fit i64"))
    );
    assert_eq!(duration_ms, Some(100));
}

#[test]
fn turn_profile_rounding_goes_to_the_open_phase() {
    // Sub-millisecond pieces are truncated; the remainder of the total goes to
    // the phase still open at completion.
    let mut state = TurnProfileState::new();
    state.start(0);
    let _ = state.begin_sampling(MS / 2);
    let profile = state.complete(3 * MS);
    assert_eq!(profile.before_first_sampling_ms, 0);
    assert_eq!(profile.sampling_ms, 3);
    assert_eq!(profile.sampling_request_count, 1);
}

#[test]
fn turn_profile_complete_is_idempotent_and_freezes_the_profile() {
    let mut state = TurnProfileState::new();
    state.start(0);
    let first = state.complete(40 * MS);
    assert!(!state.begin_sampling(50 * MS));
    state.record_sampling_retry();
    let second = state.complete(90 * MS);
    assert_eq!(first, second);
    assert_eq!(first.before_first_sampling_ms, 40);
}

#[test]
fn turn_profile_phases_do_not_nest() {
    let mut state = TurnProfileState::new();
    assert!(!state.begin_sampling(0), "no phase before the turn starts");
    state.start(0);
    assert!(state.begin_sampling(MS));
    assert!(!state.begin_tool_blocking(2 * MS));
    assert!(!state.begin_compaction(2 * MS));
    // Ending a phase that is not open changes nothing.
    state.end_phase(3 * MS, TurnProfilePhase::ToolBlocking);
    state.end_phase(4 * MS, TurnProfilePhase::Sampling);
    assert!(state.begin_tool_blocking(4 * MS));
}

#[test]
fn timing_guards_open_and_close_phases() {
    let mut state = TurnTimingState::new();
    state.mark_turn_started(0, 0);
    let guard = state.begin_sampling(10 * MS);
    assert!(guard.active);
    let nested = state.begin_tool_blocking(12 * MS);
    assert!(!nested.active);
    state.end_guard(nested, 15 * MS);
    state.end_guard(guard, 20 * MS);
    state.record_sampling_retry();
    let compaction = state.begin_compaction(25 * MS);
    assert!(compaction.active);
    state.end_guard(compaction, 35 * MS);
    let (completed_at, duration, profile) = state.complete_profile_and_duration_ms(40 * MS, 99);
    assert_eq!(completed_at, Some(99));
    assert_eq!(duration, Some(40));
    assert_eq!(profile.sampling_ms, 10);
    assert_eq!(profile.compaction_ms, 10);
    assert_eq!(profile.before_first_sampling_ms, 10);
    assert_eq!(profile.between_sampling_overhead_ms, 0);
    assert_eq!(profile.after_last_sampling_ms, 10);
    assert_eq!(profile.sampling_retry_count, 1);
}

#[test]
fn duration_and_clock_conversions() {
    assert_eq!(duration_to_u64_ms(1_999_999), 1);
    assert_eq!(duration_to_u64_ms(u64::MAX), u64::MAX / 1_000_000);
    assert_eq!(now_unix_timestamp_ms(Some(1_234)), 1_234);
    assert_eq!(now_unix_timestamp_ms(Some(u128::MAX)), i64::MAX);
    assert_eq!(now_unix_timestamp_ms(None), 0);
    assert_eq!(now_unix_timestamp_secs(1_700_000_999), 1_700_000);
}

#[test]
fn advancing_without_a_mark_sets_it() {
    let mut state = TurnProfileState::new();
    state.started_at = Some(5 * MS);
    assert!(state.begin_sampling(7 * MS));
    assert_eq!(state.last_transition_at, Some(7 * MS));
}
