//! The trigger scan and its spawn guard.
//!
//! Every cycle the daemon pulls the issues that carry the trigger label. The
//! scan turns them into requests to spawn a planner, and claims each issue in
//! the state store in the same step. An issue that has a record is skipped, so
//! an issue is handed out once, however often it is pulled.

use crate::store::{
    claimed, distinct_issues, fresh_record, keeps_history, lemma_new_claims_keep_history,
    AutomationRecord, StateStore,
};
use crate::tracker::{Issue, TrackerError};
use vstd::prelude::*;

verus! {

/// A request to spawn a planner for a newly claimed issue.
#[derive(Clone, Copy, Debug, PartialEq, Eq, Structural)]
pub struct TriggerRequest {
    /// The issue to plan for.
    pub issue_number: u64,
}

/// The numbers of `issues`, in order.
pub open spec fn numbers_of(issues: Seq<Issue>) -> Seq<u64> {
    issues.map_values(|issue: Issue| issue.number)
}

/// The issues that `requests` ask a planner for, in order.
pub open spec fn requested(requests: Seq<TriggerRequest>) -> Seq<u64> {
    requests.map_values(|request: TriggerRequest| request.issue_number)
}

/// The records that claim `issues` at time `now`, in order.
pub open spec fn claims(issues: Seq<u64>, now: u64) -> Seq<AutomationRecord> {
    issues.map_values(|n: u64| fresh_record(n, now))
}

/// The labeled issues that a scan hands out: those without a record, each
/// once, in the order in which they were pulled.
pub open spec fn new_triggers(labeled: Seq<u64>, records: Seq<AutomationRecord>) -> Seq<u64>
    decreases labeled.len(),
{
    if labeled.len() == 0 {
        Seq::empty()
    } else {
        let earlier = new_triggers(labeled.drop_last(), records);
        let issue = labeled.last();
        if claimed(records, issue) || earlier.contains(issue) {
            earlier
        } else {
            earlier.push(issue)
        }
    }
}

/// What a scan hands out for the outcome of a pull: nothing when the pull failed.
pub open spec fn triggers_of(
    pulled: Result<Vec<Issue>, TrackerError>,
    records: Seq<AutomationRecord>,
) -> Seq<u64> {
    match pulled {
        Ok(issues) => new_triggers(numbers_of(issues@), records),
        Err(_) => Seq::empty(),
    }
}

/// The spawn guard: an issue may be handed to a planner only while it has no
/// automation record.
pub fn may_spawn(store: &StateStore, issue_number: u64) -> (allowed: bool)
    ensures
        allowed == !claimed(store@, issue_number),
{
    !store.automation_exists(issue_number)
}

/// Scans the outcome of pulling the labeled issues.
///
/// Each pulled issue that has no record yet is claimed at time `now` and
/// handed out as a request, once and in pull order; issues with a record are
/// skipped. A failed pull hands out nothing and leaves the store alone.
/// Every issue that is handed out has its record when the scan returns.
pub fn scan(
    pulled: &Result<Vec<Issue>, TrackerError>,
    store: &mut StateStore,
    now: u64,
) -> (requests: Vec<TriggerRequest>)
    requires
        old(store).wf(),
    ensures
        final(store).wf(),
        requested(requests@) == triggers_of(*pulled, old(store)@),
        final(store)@ == old(store)@ + claims(triggers_of(*pulled, old(store)@), now),
{
    let mut requests: Vec<TriggerRequest> = Vec::new();
    match pulled {
        Ok(issues) => {
            let ghost labeled = numbers_of(issues@);
            let mut i: usize = 0;
            while i < issues.len()
                invariant
                    i <= issues@.len(),
                    labeled == numbers_of(issues@),
                    store.wf(),
                    requested(requests@) == new_triggers(labeled.take(i as int), old(store)@),
                    store@ == old(store)@ + claims(
                        new_triggers(labeled.take(i as int), old(store)@),
                        now,
                    ),
                decreases issues@.len() - i,
            {
                let number = issues[i].number;
                let ghost earlier = new_triggers(labeled.take(i as int), old(store)@);
                proof {
                    assert(labeled.take(i + 1).drop_last() =~= labeled.take(i as int));
                    lemma_claimed_after_claims(old(store)@, earlier, now, number);
                }
                if may_spawn(store, number) {
                    store.create_record(number, now);
                    requests.push(TriggerRequest { issue_number: number });
                }
                i += 1;
            }
            assert(labeled.take(i as int) =~= labeled);
        },
        Err(_) => {},
    }
    requests
}

/// An issue has a record among `records` followed by the claims of `issues`
/// exactly when it had one among `records` or is one of `issues`.
pub proof fn lemma_claimed_after_claims(
    records: Seq<AutomationRecord>,
    issues: Seq<u64>,
    now: u64,
    issue_number: u64,
)
    ensures
        claimed(records + claims(issues, now), issue_number) <==> claimed(records, issue_number)
            || issues.contains(issue_number),
{
    let after = records + claims(issues, now);
    if claimed(records, issue_number) {
        let i = choose|i: int|
            0 <= i < records.len() && (#[trigger] records[i]).issue_number == issue_number;
        assert(after[i].issue_number == issue_number);
    }
    if issues.contains(issue_number) {
        let k = choose|k: int| 0 <= k < issues.len() && issues[k] == issue_number;
        assert(after[records.len() + k].issue_number == issue_number);
    }
}

/// A scan hands out exactly the pulled issues that had no record.
pub proof fn lemma_new_triggers_membership(
    labeled: Seq<u64>,
    records: Seq<AutomationRecord>,
    issue_number: u64,
)
    ensures
        new_triggers(labeled, records).contains(issue_number) <==> labeled.contains(issue_number)
            && !claimed(records, issue_number),
    decreases labeled.len(),
{
    if labeled.len() > 0 {
        let shorter = labeled.drop_last();
        let earlier = new_triggers(shorter, records);
        let issue = labeled.last();
        lemma_new_triggers_membership(shorter, records, issue_number);
        if labeled.contains(issue_number) {
            let k = choose|k: int| 0 <= k < labeled.len() && labeled[k] == issue_number;
            if k < shorter.len() {
                assert(shorter[k] == issue_number);
            }
        }
        if !(claimed(records, issue) || earlier.contains(issue)) {
            let handed = earlier.push(issue);
            assert(handed[earlier.len() as int] == issue);
            if earlier.contains(issue_number) {
                let k = choose|k: int| 0 <= k < earlier.len() && earlier[k] == issue_number;
                assert(handed[k] == issue_number);
            }
        }
    }
}

/// A scan hands out no issue twice.
pub proof fn lemma_new_triggers_distinct(labeled: Seq<u64>, records: Seq<AutomationRecord>)
    ensures
        new_triggers(labeled, records).no_duplicates(),
    decreases labeled.len(),
{
    if labeled.len() > 0 {
        lemma_new_triggers_distinct(labeled.drop_last(), records);
    }
}

/// When a scan returns, every pulled issue has a record: its old one, or the
/// one that the scan created before it handed the issue out.
pub proof fn lemma_scan_claims_every_pulled_issue(
    labeled: Seq<u64>,
    records: Seq<AutomationRecord>,
    now: u64,
    issue_number: u64,
)
    requires
        labeled.contains(issue_number),
    ensures
        claimed(records + claims(new_triggers(labeled, records), now), issue_number),
{
    lemma_new_triggers_membership(labeled, records, issue_number);
    lemma_claimed_after_claims(records, new_triggers(labeled, records), now, issue_number);
}

/// A scan of issues that all have records hands out nothing.
pub proof fn lemma_claimed_issues_trigger_nothing(
    labeled: Seq<u64>,
    records: Seq<AutomationRecord>,
)
    requires
        forall|k: int| 0 <= k < labeled.len() ==> claimed(records, #[trigger] labeled[k]),
    ensures
        new_triggers(labeled, records) == Seq::<u64>::empty(),
    decreases labeled.len(),
{
    if labeled.len() > 0 {
        let shorter = labeled.drop_last();
        lemma_claimed_issues_trigger_nothing(shorter, records);
    }
}

/// Scanning is idempotent. A second scan of the same pull, at any later time
/// and with no other change to the store in between, hands out nothing and
/// leaves the store as the first scan left it; with the first scan handing out
/// no issue twice, no issue gets more than one planner.
pub proof fn lemma_scan_is_idempotent(
    labeled: Seq<u64>,
    records: Seq<AutomationRecord>,
    first: u64,
    second: u64,
)
    ensures
        ({
            let after_first = records + claims(new_triggers(labeled, records), first);
            &&& new_triggers(labeled, after_first) == Seq::<u64>::empty()
            &&& after_first + claims(new_triggers(labeled, after_first), second) == after_first
        }),
        new_triggers(labeled, records).no_duplicates(),
{
    let after_first = records + claims(new_triggers(labeled, records), first);
    assert forall|k: int| 0 <= k < labeled.len() implies claimed(
        after_first,
        #[trigger] labeled[k],
    ) by {
        lemma_scan_claims_every_pulled_issue(labeled, records, first, labeled[k]);
    }
    lemma_claimed_issues_trigger_nothing(labeled, after_first);
    lemma_new_triggers_distinct(labeled, records);
}

/// A scan keeps the store free of duplicates and keeps its history: the
/// records that were there stay as they are, and the new ones come after them.
pub proof fn lemma_scan_keeps_history(
    pulled: Result<Vec<Issue>, TrackerError>,
    records: Seq<AutomationRecord>,
    now: u64,
)
    requires
        distinct_issues(records),
    ensures
        distinct_issues(records + claims(triggers_of(pulled, records), now)),
        keeps_history(records, records + claims(triggers_of(pulled, records), now)),
{
    let handed = triggers_of(pulled, records);
    let after = records + claims(handed, now);
    match pulled {
        Ok(issues) => {
            let labeled = numbers_of(issues@);
            lemma_new_triggers_distinct(labeled, records);
            assert forall|i: int, j: int| 0 <= i < j < after.len() implies (
            #[trigger] after[i]).issue_number != (#[trigger] after[j]).issue_number by {
                if j >= records.len() {
                    lemma_new_triggers_membership(labeled, records, handed[j - records.len()]);
                }
            }
        },
        Err(_) => {},
    }
    lemma_new_claims_keep_history(records, claims(handed, now));
}

} // verus!
