use automation_core::poller::{
    latest_time, poll_conversation, poll_pr_feedback, select_new_comments,
};
use automation_core::router::Agent;
use automation_core::store::StateStore;
use automation_core::tracker::{Comment, TrackerError};

fn comment(issue_number: u64, body: &str, created_at: u64) -> Comment {
    Comment { issue_number, author: "octocat".to_string(), body: body.to_string(), created_at }
}

fn times(comments: &[Comment]) -> Vec<u64> {
    comments.iter().map(|c| c.created_at).collect()
}

fn failed() -> Result<Vec<Comment>, TrackerError> {
    Err(TrackerError { message: "timeout".to_string() })
}

#[test]
fn select_new_comments_keeps_strictly_newer_ones_in_order() {
    let fetched = vec![
        comment(7, "a", 90),
        comment(7, "b", 100),
        comment(7, "c", 101),
        comment(7, "d", 99),
        comment(7, "e", 300),
    ];
    let fresh = select_new_comments(&fetched, 100);
    assert_eq!(times(&fresh), vec![101, 300]);
    assert_eq!(fresh[0].body, "c");
    assert_eq!(fresh[1].body, "e");
    assert!(select_new_comments(&fetched, 300).is_empty());
    assert_eq!(select_new_comments(&fetched, 0).len(), 5);
}

#[test]
fn latest_time_is_the_maximum() {
    let fetched = vec![comment(7, "a", 90), comment(7, "b", 300), comment(7, "c", 101)];
    assert_eq!(latest_time(&fetched, 0), 300);
    assert_eq!(latest_time(&fetched, 500), 500);
    assert_eq!(latest_time(&Vec::new(), 12), 12);
}

#[test]
fn no_comment_is_delivered_twice() {
    let mut store = StateStore::new();
    store.create_record(7, 100);
    let fetched = Ok(vec![comment(7, "first", 150), comment(7, "second", 200)]);

    let delivery = poll_conversation(&mut store, 7, &fetched).unwrap();
    assert_eq!(times(&delivery.comments), vec![150, 200]);
    assert_eq!(store.last_comment_time(7), Some(200));

    assert!(poll_conversation(&mut store, 7, &fetched).is_none());
    assert_eq!(store.last_comment_time(7), Some(200));

    let later = Ok(vec![
        comment(7, "first", 150),
        comment(7, "second", 200),
        comment(7, "third", 201),
    ]);
    let delivery = poll_conversation(&mut store, 7, &later).unwrap();
    assert_eq!(times(&delivery.comments), vec![201]);
    assert_eq!(store.last_comment_time(7), Some(201));
}

#[test]
fn comments_older_than_the_claim_are_not_new() {
    let mut store = StateStore::new();
    store.create_record(7, 100);
    let fetched = Ok(vec![comment(7, "old", 99), comment(7, "at the claim", 100)]);
    assert!(poll_conversation(&mut store, 7, &fetched).is_none());
    assert_eq!(store.last_comment_time(7), Some(100));
}

#[test]
fn poll_routes_by_the_latest_new_comment() {
    let mut store = StateStore::new();
    store.create_record(7, 100);
    store.set_plan_exists(7, true);

    let fetched = Ok(vec![comment(7, "let's try a different approach", 110)]);
    let delivery = poll_conversation(&mut store, 7, &fetched).unwrap();
    assert_eq!(delivery.issue_number, 7);
    assert_eq!(delivery.agent, Agent::Planner);

    let fetched = Ok(vec![comment(7, "Rethink it", 120), comment(7, "fix the typo", 130)]);
    let delivery = poll_conversation(&mut store, 7, &fetched).unwrap();
    assert_eq!(delivery.agent, Agent::Executor);
    assert_eq!(times(&delivery.comments), vec![120, 130]);
}

#[test]
fn poll_without_a_plan_goes_to_the_planner() {
    let mut store = StateStore::new();
    store.create_record(7, 100);
    let fetched = Ok(vec![comment(7, "looks good, ship it", 110)]);
    let delivery = poll_conversation(&mut store, 7, &fetched).unwrap();
    assert_eq!(delivery.agent, Agent::Planner);
}

#[test]
fn an_old_keyword_does_not_route_again() {
    let mut store = StateStore::new();
    store.create_record(7, 100);
    store.set_plan_exists(7, true);
    let fetched = Ok(vec![comment(7, "rethink", 110)]);
    assert_eq!(poll_conversation(&mut store, 7, &fetched).unwrap().agent, Agent::Planner);
    let fetched = Ok(vec![comment(7, "rethink", 110), comment(7, "thanks", 111)]);
    assert_eq!(poll_conversation(&mut store, 7, &fetched).unwrap().agent, Agent::Executor);
}

#[test]
fn failed_fetch_delivers_nothing() {
    let mut store = StateStore::new();
    store.create_record(7, 100);
    assert!(poll_conversation(&mut store, 7, &failed()).is_none());
    assert!(poll_pr_feedback(&mut store, 7, &failed()).is_none());
    assert_eq!(store.last_comment_time(7), Some(100));
}

#[test]
fn unclaimed_issue_delivers_nothing() {
    let mut store = StateStore::new();
    store.create_record(7, 100);
    let fetched = Ok(vec![comment(8, "hello", 500)]);
    assert!(poll_conversation(&mut store, 8, &fetched).is_none());
    assert!(poll_pr_feedback(&mut store, 8, &fetched).is_none());
    assert_eq!(store.len(), 1);
}

#[test]
fn poll_leaves_other_issues_alone() {
    let mut store = StateStore::new();
    store.create_record(7, 100);
    store.create_record(8, 100);
    let fetched = Ok(vec![comment(7, "hello", 500)]);
    assert!(poll_conversation(&mut store, 7, &fetched).is_some());
    assert_eq!(store.last_comment_time(7), Some(500));
    assert_eq!(store.last_comment_time(8), Some(100));
}

#[test]
fn pr_feedback_always_goes_to_the_executor() {
    let mut store = StateStore::new();
    store.create_record(7, 100);
    let fetched = Ok(vec![comment(7, "let's try a different approach", 110)]);
    let delivery = poll_pr_feedback(&mut store, 7, &fetched).unwrap();
    assert_eq!(delivery.agent, Agent::Executor);
    assert_eq!(delivery.issue_number, 7);
    assert_eq!(times(&delivery.comments), vec![110]);
    assert_eq!(store.last_comment_time(7), Some(110));
    assert!(poll_pr_feedback(&mut store, 7, &fetched).is_none());
    assert!(poll_conversation(&mut store, 7, &fetched).is_none());
}

#[test]
fn last_seen_follows_the_newest_comment_not_the_last() {
    let mut store = StateStore::new();
    store.create_record(7, 100);
    let fetched = Ok(vec![comment(7, "late", 300), comment(7, "early", 200)]);
    let delivery = poll_conversation(&mut store, 7, &fetched).unwrap();
    assert_eq!(times(&delivery.comments), vec![300, 200]);
    assert_eq!(store.last_comment_time(7), Some(300));
}
