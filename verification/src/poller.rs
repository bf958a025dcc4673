//! The conversation poller.
//!
//! For each claimed issue the daemon fetches the comments of the conversation
//! and hands the poller what came back. The poller keeps the comments that are
//! newer than the issue's last-seen time, routes them to an agent, and moves
//! the last-seen time forward past them, so that no comment is delivered twice.

use crate::router::{decide, decision, Agent};
use crate::store::{
    advanced, claimed, distinct_issues, keeps_history, lemma_change_keeps_history,
    lemma_record_after_change, record_of, with_record_changed, AutomationRecord, StateStore,
};
use crate::tracker::{Comment, TrackerError};
use vstd::prelude::*;

verus! {

/// New comments of one conversation, and the agent that is to handle them.
#[derive(Debug)]
pub struct Delivery {
    /// The issue whose conversation moved.
    pub issue_number: u64,
    /// The kind of agent to spawn.
    pub agent: Agent,
    /// The new comments, oldest first.
    pub comments: Vec<Comment>,
}

/// `comment` was written after `last_seen`.
pub open spec fn is_newer(comment: Comment, last_seen: u64) -> bool {
    comment.created_at > last_seen
}

/// The comments written after `last_seen`, in their order.
pub open spec fn newer_than(comments: Seq<Comment>, last_seen: u64) -> Seq<Comment> {
    comments.filter(|comment: Comment| is_newer(comment, last_seen))
}

/// The latest time among `floor` and the times of `comments`.
pub open spec fn newest_time(comments: Seq<Comment>, floor: u64) -> u64
    decreases comments.len(),
{
    if comments.len() == 0 {
        floor
    } else {
        let before = newest_time(comments.drop_last(), floor);
        if comments.last().created_at > before {
            comments.last().created_at
        } else {
            before
        }
    }
}

/// The comments that a poll of `issue_number` delivers: those of a successful
/// fetch that are newer than the issue's last-seen time. An issue without a
/// record, and a failed fetch, deliver nothing.
pub open spec fn fresh_comments(
    records: Seq<AutomationRecord>,
    issue_number: u64,
    fetched: Result<Vec<Comment>, TrackerError>,
) -> Seq<Comment> {
    match fetched {
        Ok(comments) if claimed(records, issue_number) => newer_than(
            comments@,
            record_of(records, issue_number).last_comment_time,
        ),
        _ => Seq::empty(),
    }
}

/// The store after a poll of `issue_number` delivered `delivered`.
pub open spec fn store_after_delivery(
    records: Seq<AutomationRecord>,
    issue_number: u64,
    delivered: Seq<Comment>,
) -> Seq<AutomationRecord> {
    with_record_changed(
        records,
        issue_number,
        |r: AutomationRecord| advanced(r, newest_time(delivered, 0)),
    )
}

/// Copies out the comments that were written after `last_seen`.
pub fn select_new_comments(fetched: &Vec<Comment>, last_seen: u64) -> (fresh: Vec<Comment>)
    ensures
        fresh@ == newer_than(fetched@, last_seen),
{
    let mut fresh: Vec<Comment> = Vec::new();
    let mut i: usize = 0;
    while i < fetched.len()
        invariant
            i <= fetched@.len(),
            fresh@ == newer_than(fetched@.take(i as int), last_seen),
        decreases fetched@.len() - i,
    {
        proof {
            reveal(Seq::filter);
            assert(fetched@.take(i + 1).drop_last() =~= fetched@.take(i as int));
        }
        if fetched[i].created_at > last_seen {
            fresh.push(fetched[i].clone());
        }
        i += 1;
    }
    assert(fetched@.take(i as int) =~= fetched@);
    fresh
}

/// The latest time among `floor` and the times of `comments`.
pub fn latest_time(comments: &Vec<Comment>, floor: u64) -> (latest: u64)
    ensures
        latest == newest_time(comments@, floor),
{
    let mut latest = floor;
    let mut i: usize = 0;
    while i < comments.len()
        invariant
            i <= comments@.len(),
            latest == newest_time(comments@.take(i as int), floor),
        decreases comments@.len() - i,
    {
        proof {
            assert(comments@.take(i + 1).drop_last() =~= comments@.take(i as int));
        }
        if comments[i].created_at > latest {
            latest = comments[i].created_at;
        }
        i += 1;
    }
    assert(comments@.take(i as int) =~= comments@);
    latest
}

/// Takes the new comments out of a fetch and moves the issue's last-seen time
/// past them.
fn take_delivery(
    store: &mut StateStore,
    issue_number: u64,
    fetched: &Result<Vec<Comment>, TrackerError>,
) -> (fresh: Vec<Comment>)
    requires
        old(store).wf(),
    ensures
        final(store).wf(),
        fresh@ == fresh_comments(old(store)@, issue_number, *fetched),
        final(store)@ == store_after_delivery(old(store)@, issue_number, fresh@),
{
    let fresh = match (fetched, store.last_comment_time(issue_number)) {
        (Ok(comments), Some(last_seen)) => select_new_comments(comments, last_seen),
        _ => Vec::new(),
    };
    let latest = latest_time(&fresh, 0);
    store.advance_last_comment_time(issue_number, latest);
    fresh
}

/// Polls the conversation of `issue_number` with the outcome of fetching its
/// comments.
///
/// The comments newer than the issue's last-seen time are delivered, oldest
/// first, together with the agent that `decide` picks for them and the
/// issue's plan status; the last-seen time moves forward to the newest of
/// them. Without new comments, after a failed fetch, or for an issue that has
/// no record, nothing is delivered and the store stays as it is.
pub fn poll_conversation(
    store: &mut StateStore,
    issue_number: u64,
    fetched: &Result<Vec<Comment>, TrackerError>,
) -> (delivery: Option<Delivery>)
    requires
        old(store).wf(),
    ensures
        final(store).wf(),
        delivery is Some <==> fresh_comments(old(store)@, issue_number, *fetched).len() > 0,
        delivery is Some ==> {
            &&& delivery->0.issue_number == issue_number
            &&& delivery->0.comments@ == fresh_comments(old(store)@, issue_number, *fetched)
            &&& delivery->0.agent == decision(
                delivery->0.comments@,
                record_of(old(store)@, issue_number).plan_exists,
            )
        },
        final(store)@ == store_after_delivery(
            old(store)@,
            issue_number,
            fresh_comments(old(store)@, issue_number, *fetched),
        ),
{
    let has_plan = store.has_plan(issue_number);
    let comments = take_delivery(store, issue_number, fetched);
    if comments.len() == 0 {
        return None;
    }
    let agent = decide(comments.as_slice(), has_plan);
    Some(Delivery { issue_number, agent, comments })
}

/// Polls the feedback on a pull request that belongs to `issue_number`, with
/// the outcome of fetching its comments.
///
/// New comments are delivered as in `poll_conversation`, but feedback on a
/// pull request always goes to the executor, whatever the comments say.
pub fn poll_pr_feedback(
    store: &mut StateStore,
    issue_number: u64,
    fetched: &Result<Vec<Comment>, TrackerError>,
) -> (delivery: Option<Delivery>)
    requires
        old(store).wf(),
    ensures
        final(store).wf(),
        delivery is Some <==> fresh_comments(old(store)@, issue_number, *fetched).len() > 0,
        delivery is Some ==> {
            &&& delivery->0.issue_number == issue_number
            &&& delivery->0.comments@ == fresh_comments(old(store)@, issue_number, *fetched)
            &&& delivery->0.agent == Agent::Executor
        },
        final(store)@ == store_after_delivery(
            old(store)@,
            issue_number,
            fresh_comments(old(store)@, issue_number, *fetched),
        ),
{
    let comments = take_delivery(store, issue_number, fetched);
    if comments.len() == 0 {
        return None;
    }
    Some(Delivery { issue_number, agent: Agent::Executor, comments })
}

/// `newest_time` is at least `floor` and at least the time of every comment.
pub proof fn lemma_newest_time_bounds(comments: Seq<Comment>, floor: u64)
    ensures
        newest_time(comments, floor) >= floor,
        forall|k: int|
            0 <= k < comments.len() ==> (#[trigger] comments[k]).created_at <= newest_time(
                comments,
                floor,
            ),
    decreases comments.len(),
{
    if comments.len() > 0 {
        lemma_newest_time_bounds(comments.drop_last(), floor);
        assert forall|k: int| 0 <= k < comments.len() implies (#[trigger] comments[k]).created_at
            <= newest_time(comments, floor) by {
            if k < comments.len() - 1 {
                assert(comments.drop_last()[k] == comments[k]);
            }
        }
    }
}

/// Every comment that a poll delivers was fetched for a claimed issue and is
/// newer than the issue's last-seen time.
pub proof fn lemma_delivered_comments_are_newer(
    records: Seq<AutomationRecord>,
    issue_number: u64,
    fetched: Result<Vec<Comment>, TrackerError>,
    k: int,
)
    requires
        0 <= k < fresh_comments(records, issue_number, fetched).len(),
    ensures
        claimed(records, issue_number),
        fetched is Ok,
        fetched->Ok_0@.contains(fresh_comments(records, issue_number, fetched)[k]),
        fresh_comments(records, issue_number, fetched)[k].created_at > record_of(
            records,
            issue_number,
        ).last_comment_time,
{
    let last_seen = record_of(records, issue_number).last_comment_time;
    let comments = fetched->Ok_0@;
    let newer = |comment: Comment| is_newer(comment, last_seen);
    comments.lemma_filter_contains_rev(newer, comments.filter(newer)[k]);
}

/// A poll moves the last-seen time of the polled issue forward, never back,
/// and at least to the time of every comment that it delivers.
pub proof fn lemma_poll_advances_last_seen(
    records: Seq<AutomationRecord>,
    issue_number: u64,
    fetched: Result<Vec<Comment>, TrackerError>,
)
    requires
        distinct_issues(records),
        claimed(records, issue_number),
    ensures
        ({
            let delivered = fresh_comments(records, issue_number, fetched);
            let after = store_after_delivery(records, issue_number, delivered);
            &&& claimed(after, issue_number)
            &&& record_of(after, issue_number).last_comment_time >= record_of(
                records,
                issue_number,
            ).last_comment_time
            &&& forall|k: int|
                0 <= k < delivered.len() ==> (#[trigger] delivered[k]).created_at <= record_of(
                    after,
                    issue_number,
                ).last_comment_time
        }),
{
    let delivered = fresh_comments(records, issue_number, fetched);
    let change = |r: AutomationRecord| advanced(r, newest_time(delivered, 0));
    lemma_record_after_change(records, issue_number, change, issue_number);
    lemma_newest_time_bounds(delivered, 0);
}

/// A poll of one issue leaves the records of all other issues as they are.
pub proof fn lemma_poll_leaves_other_issues_alone(
    records: Seq<AutomationRecord>,
    issue_number: u64,
    fetched: Result<Vec<Comment>, TrackerError>,
    other: u64,
)
    requires
        distinct_issues(records),
        claimed(records, other),
        other != issue_number,
    ensures
        ({
            let delivered = fresh_comments(records, issue_number, fetched);
            let after = store_after_delivery(records, issue_number, delivered);
            claimed(after, other) && record_of(after, other) == record_of(records, other)
        }),
{
    let delivered = fresh_comments(records, issue_number, fetched);
    let change = |r: AutomationRecord| advanced(r, newest_time(delivered, 0));
    lemma_record_after_change(records, issue_number, change, other);
}

/// No comment is delivered twice. Once the last-seen time of an issue stands
/// at some time, no poll of that issue delivers a comment written at or
/// before that time: not the next poll, and not a poll of any later store
/// that has kept the history of this one, whatever its fetch returns.
pub proof fn lemma_no_redelivery(
    records: Seq<AutomationRecord>,
    later: Seq<AutomationRecord>,
    issue_number: u64,
    fetched: Result<Vec<Comment>, TrackerError>,
)
    requires
        claimed(records, issue_number),
        keeps_history(records, later),
    ensures
        forall|k: int|
            0 <= k < fresh_comments(later, issue_number, fetched).len() ==> (
            #[trigger] fresh_comments(later, issue_number, fetched)[k]).created_at > record_of(
                records,
                issue_number,
            ).last_comment_time,
{
    let delivered = fresh_comments(later, issue_number, fetched);
    assert forall|k: int| 0 <= k < delivered.len() implies (#[trigger] delivered[k]).created_at
        > record_of(records, issue_number).last_comment_time by {
        lemma_delivered_comments_are_newer(later, issue_number, fetched, k);
    }
}

/// A poll keeps the store free of duplicates and keeps its history.
pub proof fn lemma_poll_keeps_history(
    records: Seq<AutomationRecord>,
    issue_number: u64,
    fetched: Result<Vec<Comment>, TrackerError>,
)
    requires
        distinct_issues(records),
    ensures
        ({
            let delivered = fresh_comments(records, issue_number, fetched);
            let after = store_after_delivery(records, issue_number, delivered);
            distinct_issues(after) && keeps_history(records, after)
        }),
{
    let delivered = fresh_comments(records, issue_number, fetched);
    lemma_change_keeps_history(
        records,
        issue_number,
        |r: AutomationRecord| advanced(r, newest_time(delivered, 0)),
    );
}

/// Issues are handled apart from each other. What a poll of one issue
/// delivers does not depend on what was fetched for another issue, whether
/// that fetch failed or what it brought: after a poll of the other issue the
/// same comments are new.
pub proof fn lemma_polls_do_not_interfere(
    records: Seq<AutomationRecord>,
    issue_number: u64,
    fetched: Result<Vec<Comment>, TrackerError>,
    other: u64,
    fetched_for_other: Result<Vec<Comment>, TrackerError>,
)
    requires
        distinct_issues(records),
        other != issue_number,
    ensures
        ({
            let after_other = store_after_delivery(
                records,
                other,
                fresh_comments(records, other, fetched_for_other),
            );
            fresh_comments(after_other, issue_number, fetched) == fresh_comments(
                records,
                issue_number,
                fetched,
            )
        }),
{
    let delivered = fresh_comments(records, other, fetched_for_other);
    lemma_record_after_change(
        records,
        other,
        |r: AutomationRecord| advanced(r, newest_time(delivered, 0)),
        issue_number,
    );
}

} // verus!
