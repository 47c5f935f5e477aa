//! The rollout persistence pass. The persistence policy's verdict on each
//! item is given as a flag; the items stand for the rollout items by name.

use codexium_core::measure_and_filter_rollout_items;

fn items(names: &[&str]) -> Vec<String> {
    names.iter().map(|n| n.to_string()).collect()
}

#[test]
fn mixed_batch_applies_policy_and_drops_other_items() {
    // A user message is kept; an `Other` response item is dropped (Legacy).
    let kept = "response_item:message:user:hello".to_string();
    let dropped = "response_item:other".to_string();
    let persisted = measure_and_filter_rollout_items(vec![kept.clone(), dropped], &vec![true, false]);
    assert_eq!(persisted, vec![kept]);
}

#[test]
fn retained_items_are_byte_identical() {
    let item = "response_item:message:user:a moderately sized payload".to_string();
    let persisted = measure_and_filter_rollout_items(vec![item.clone()], &vec![true]);
    assert_eq!(persisted[0].as_bytes(), item.as_bytes());
}

#[test]
fn item_completion_persistence_depends_on_history_mode() {
    let item = "event:item_completed:turn:user_message:item".to_string();
    // Legacy history does not keep item completions.
    let legacy_persisted = measure_and_filter_rollout_items(vec![item.clone()], &vec![false]);
    assert!(legacy_persisted.is_empty());
    // Paginated history keeps them.
    let paginated_persisted = measure_and_filter_rollout_items(vec![item.clone()], &vec![true]);
    assert_eq!(paginated_persisted, vec![item]);
}

#[test]
fn review_mode_persistence_depends_on_history_mode() {
    let completed_items = items(&[
        "event:item_completed:turn:entered_review_mode:entered-review",
        "event:item_completed:turn:exited_review_mode:exited-review",
    ]);
    let legacy_events = items(&[
        "event:entered_review_mode:turn:entered-review",
        "event:exited_review_mode:turn:exited-review",
    ]);
    let all: Vec<String> = completed_items.iter().chain(&legacy_events).cloned().collect();

    // Legacy keeps the legacy review events; paginated keeps the item completions.
    let persisted_legacy = measure_and_filter_rollout_items(all.clone(), &vec![false, false, true, true]);
    assert_eq!(persisted_legacy, legacy_events);
    let persisted_paginated = measure_and_filter_rollout_items(all, &vec![true, true, false, false]);
    assert_eq!(persisted_paginated, completed_items);
}
