use automation_core::handoff::{Handoff, HandoffAction, HandoffStep, HANDOFF_GRACE_SECS};
use automation_core::store::StateStore;
use automation_core::trigger::TriggerRequest;

fn drive(issue: u64, outcomes: &[bool]) -> (Handoff, Vec<HandoffAction>, StateStore) {
    let mut store = StateStore::new();
    let (mut handoff, first) = Handoff::begin(TriggerRequest { issue_number: issue });
    let mut actions = vec![first];
    for (i, outcome) in outcomes.iter().enumerate() {
        if let Some(action) = handoff.advance(&mut store, *outcome, 1_000 + i as u64) {
            actions.push(action);
        }
    }
    (handoff, actions, store)
}

fn executor_spawns(actions: &[HandoffAction], issue: u64) -> usize {
    actions
        .iter()
        .filter(|a| **a == HandoffAction::SpawnExecutor { issue_number: issue })
        .count()
}

#[test]
fn planner_success_is_followed_by_exactly_one_executor() {
    for executor_ok in [true, false] {
        for wait_ok in [true, false] {
            let (handoff, actions, _) = drive(42, &[true, wait_ok, executor_ok]);
            assert_eq!(
                actions,
                vec![
                    HandoffAction::SpawnPlanner { issue_number: 42 },
                    HandoffAction::Wait { secs: 15 },
                    HandoffAction::SpawnExecutor { issue_number: 42 },
                ]
            );
            assert_eq!(executor_spawns(&actions, 42), 1);
            assert!(handoff.is_done());
            assert!(handoff.planner_spawned);
        }
    }
}

#[test]
fn failed_planner_spawn_ends_the_handling() {
    let (handoff, actions, store) = drive(42, &[false]);
    assert_eq!(actions, vec![HandoffAction::SpawnPlanner { issue_number: 42 }]);
    assert!(handoff.is_done());
    assert!(!handoff.planner_spawned);
    assert_eq!(store.len(), 0);
}

#[test]
fn a_finished_handling_names_nothing_more() {
    let (handoff, actions, _) = drive(42, &[true, true, false, true, true, false, true]);
    assert_eq!(actions.len(), 3);
    assert_eq!(executor_spawns(&actions, 42), 1);
    assert_eq!(handoff.step, HandoffStep::Done);

    let (handoff, actions, _) = drive(42, &[false, true, true, true]);
    assert_eq!(actions.len(), 1);
    assert_eq!(executor_spawns(&actions, 42), 0);
    assert_eq!(handoff.step, HandoffStep::Done);
}

#[test]
fn handling_waits_the_grace_interval() {
    assert_eq!(HANDOFF_GRACE_SECS, 15);
    let (handoff, actions, _) = drive(9, &[true]);
    assert_eq!(handoff.step, HandoffStep::Grace);
    assert_eq!(actions.last(), Some(&HandoffAction::Wait { secs: 15 }));
    assert_eq!(executor_spawns(&actions, 9), 0);
}

#[test]
fn planner_success_makes_sure_of_the_record() {
    let (_, _, store) = drive(42, &[true]);
    assert!(store.automation_exists(42));
    assert!(!store.has_plan(42));
    assert_eq!(store.record(42).unwrap().created_at, 1_000);

    let mut store = StateStore::new();
    store.create_record(42, 5);
    store.set_plan_exists(42, true);
    store.advance_last_comment_time(42, 50);
    let (mut handoff, _) = Handoff::begin(TriggerRequest { issue_number: 42 });
    handoff.advance(&mut store, true, 1_000);
    let record = store.record(42).unwrap();
    assert_eq!(store.len(), 1);
    assert!(!record.plan_exists);
    assert_eq!(record.created_at, 5);
    assert_eq!(record.last_comment_time, 50);
}

#[test]
fn later_steps_leave_the_store_alone() {
    let mut store = StateStore::new();
    let (mut handoff, _) = Handoff::begin(TriggerRequest { issue_number: 42 });
    handoff.advance(&mut store, true, 1_000);
    store.set_plan_exists(42, true);
    handoff.advance(&mut store, true, 1_015);
    handoff.advance(&mut store, true, 1_016);
    handoff.advance(&mut store, true, 1_017);
    assert!(store.has_plan(42));
    assert_eq!(store.len(), 1);
}
