use automation_core::store::{AutomationRecord, StateStore};

#[test]
fn new_store_is_empty() {
    let store = StateStore::new();
    assert_eq!(store.len(), 0);
    assert!(!store.automation_exists(1));
    assert_eq!(store.record(1), None);
    assert_eq!(store.last_comment_time(1), None);
    assert!(!store.has_plan(1));
    assert_eq!(store.active_issues(), Vec::<u64>::new());
}

#[test]
fn create_record_claims_once() {
    let mut store = StateStore::new();
    assert!(store.create_record(7, 100));
    assert!(store.automation_exists(7));
    assert_eq!(
        store.record(7),
        Some(AutomationRecord {
            issue_number: 7,
            plan_exists: false,
            created_at: 100,
            last_comment_time: 100,
        })
    );
    assert!(!store.create_record(7, 200));
    assert_eq!(store.len(), 1);
    assert_eq!(store.record(7).unwrap().created_at, 100);
}

#[test]
fn active_issues_come_in_claim_order() {
    let mut store = StateStore::new();
    store.create_record(9, 1);
    store.create_record(3, 2);
    store.create_record(5, 3);
    store.create_record(3, 4);
    assert_eq!(store.active_issues(), vec![9, 3, 5]);
    assert_eq!(store.len(), 3);
}

#[test]
fn last_comment_time_only_moves_forward() {
    let mut store = StateStore::new();
    store.create_record(7, 100);
    store.advance_last_comment_time(7, 150);
    assert_eq!(store.last_comment_time(7), Some(150));
    store.advance_last_comment_time(7, 120);
    assert_eq!(store.last_comment_time(7), Some(150));
    store.advance_last_comment_time(7, 150);
    assert_eq!(store.last_comment_time(7), Some(150));
    store.advance_last_comment_time(7, u64::MAX);
    assert_eq!(store.last_comment_time(7), Some(u64::MAX));
}

#[test]
fn advancing_an_unclaimed_issue_changes_nothing() {
    let mut store = StateStore::new();
    store.create_record(7, 100);
    store.advance_last_comment_time(8, 500);
    assert_eq!(store.len(), 1);
    assert_eq!(store.last_comment_time(8), None);
    assert_eq!(store.last_comment_time(7), Some(100));
}

#[test]
fn plan_flag_is_per_issue() {
    let mut store = StateStore::new();
    store.create_record(1, 10);
    store.create_record(2, 20);
    store.set_plan_exists(2, true);
    assert!(!store.has_plan(1));
    assert!(store.has_plan(2));
    store.set_plan_exists(2, false);
    assert!(!store.has_plan(2));
    store.set_plan_exists(3, true);
    assert!(!store.has_plan(3));
    assert_eq!(store.record(1).unwrap().last_comment_time, 10);
    assert_eq!(store.record(2).unwrap().created_at, 20);
}

#[test]
fn records_can_be_saved_and_restored() {
    let mut store = StateStore::new();
    store.create_record(9, 1);
    store.create_record(3, 2);
    store.set_plan_exists(3, true);
    store.advance_last_comment_time(9, 40);
    let saved = store.records();
    assert_eq!(saved.len(), 2);
    assert_eq!(
        saved[0],
        AutomationRecord { issue_number: 9, plan_exists: false, created_at: 1, last_comment_time: 40 }
    );
    let restored = StateStore::from_records(saved.clone()).unwrap();
    assert_eq!(restored.records(), saved);
    assert_eq!(restored.active_issues(), vec![9, 3]);
    assert!(restored.has_plan(3));
}

#[test]
fn restoring_refuses_duplicate_claims() {
    let a = AutomationRecord { issue_number: 9, plan_exists: false, created_at: 1, last_comment_time: 1 };
    let b = AutomationRecord { issue_number: 3, plan_exists: true, created_at: 2, last_comment_time: 2 };
    let c = AutomationRecord { issue_number: 9, plan_exists: true, created_at: 3, last_comment_time: 3 };
    assert!(StateStore::from_records(vec![a, b, c]).is_none());
    assert!(StateStore::from_records(vec![a, a]).is_none());
    assert!(StateStore::from_records(vec![a, b]).is_some());
    assert!(StateStore::from_records(vec![c]).is_some());
    assert!(StateStore::from_records(Vec::new()).is_some());
}
