//! The state store: one automation record per claimed issue.
//!
//! A record marks an issue as claimed by the daemon. The store never holds two
//! records for one issue, keeps records in the order in which they were
//! created, and only ever moves an issue's last-seen comment time forward.

use vstd::prelude::*;

verus! {

/// The entry that marks an issue as claimed by the daemon.
#[derive(Clone, Copy, Debug, PartialEq, Eq, Structural)]
pub struct AutomationRecord {
    /// The claimed issue.
    pub issue_number: u64,
    /// Whether a plan has been posted for the issue.
    pub plan_exists: bool,
    /// When the record was created, in seconds.
    pub created_at: u64,
    /// Time of the newest comment that has been handled, in seconds.
    pub last_comment_time: u64,
}

/// The record that claims `issue_number` at time `now`: no plan yet, and
/// nothing older than the claim counts as new.
pub open spec fn fresh_record(issue_number: u64, now: u64) -> AutomationRecord {
    AutomationRecord { issue_number, plan_exists: false, created_at: now, last_comment_time: now }
}

/// Some record in `records` is for `issue_number`.
pub open spec fn claimed(records: Seq<AutomationRecord>, issue_number: u64) -> bool {
    exists|i: int| 0 <= i < records.len() && (#[trigger] records[i]).issue_number == issue_number
}

/// No two records in `records` are for the same issue.
pub open spec fn distinct_issues(records: Seq<AutomationRecord>) -> bool {
    forall|i: int, j: int|
        0 <= i < j < records.len() ==> (#[trigger] records[i]).issue_number != (
        #[trigger] records[j]).issue_number
}

/// The position of the record for `issue_number`, where there is one.
pub open spec fn position_of(records: Seq<AutomationRecord>, issue_number: u64) -> int {
    choose|i: int| 0 <= i < records.len() && (#[trigger] records[i]).issue_number == issue_number
}

/// The record for `issue_number`, where there is one.
pub open spec fn record_of(records: Seq<AutomationRecord>, issue_number: u64) -> AutomationRecord {
    records[position_of(records, issue_number)]
}

/// `records` with `issue_number` claimed at time `now`, unless it was claimed
/// already.
pub open spec fn with_claim(
    records: Seq<AutomationRecord>,
    issue_number: u64,
    now: u64,
) -> Seq<AutomationRecord> {
    if claimed(records, issue_number) {
        records
    } else {
        records.push(fresh_record(issue_number, now))
    }
}

/// `records` with `change` applied to the record of `issue_number` and every
/// other record left as it is.
pub open spec fn with_record_changed(
    records: Seq<AutomationRecord>,
    issue_number: u64,
    change: spec_fn(AutomationRecord) -> AutomationRecord,
) -> Seq<AutomationRecord> {
    Seq::new(
        records.len(),
        |i: int|
            if records[i].issue_number == issue_number {
                change(records[i])
            } else {
                records[i]
            },
    )
}

/// `record` with its last-seen comment time moved forward to `seen`, or left
/// alone when `seen` is not newer.
pub open spec fn advanced(record: AutomationRecord, seen: u64) -> AutomationRecord {
    if seen > record.last_comment_time {
        AutomationRecord { last_comment_time: seen, ..record }
    } else {
        record
    }
}

/// `record` with its plan flag set to `plan_exists`.
pub open spec fn with_plan(record: AutomationRecord, plan_exists: bool) -> AutomationRecord {
    AutomationRecord { plan_exists, ..record }
}

/// The issue numbers of `records`, in order.
pub open spec fn issue_numbers(records: Seq<AutomationRecord>) -> Seq<u64> {
    records.map_values(|r: AutomationRecord| r.issue_number)
}

/// The automation records of all claimed issues, oldest claim first.
pub struct StateStore {
    records: Vec<AutomationRecord>,
}

impl View for StateStore {
    type V = Seq<AutomationRecord>;

    closed spec fn view(&self) -> Seq<AutomationRecord> {
        self.records@
    }
}

impl StateStore {
    /// The store's invariant: at most one record per issue.
    pub open spec fn wf(&self) -> bool {
        distinct_issues(self@)
    }

    /// An empty store.
    pub fn new() -> (store: StateStore)
        ensures
            store@ == Seq::<AutomationRecord>::empty(),
            store.wf(),
    {
        StateStore { records: Vec::new() }
    }

    /// A store with the given records, in the given order, as `records`
    /// returned them for saving. Records that claim one issue twice are refused.
    pub fn from_records(records: Vec<AutomationRecord>) -> (store: Option<StateStore>)
        ensures
            store is Some <==> distinct_issues(records@),
            store is Some ==> store->0@ == records@ && store->0.wf(),
    {
        let mut j: usize = 0;
        while j < records.len()
            invariant
                j <= records@.len(),
                distinct_issues(records@.take(j as int)),
            decreases records@.len() - j,
        {
            let mut i: usize = 0;
            while i < j
                invariant
                    i <= j < records@.len(),
                    forall|k: int|
                        0 <= k < i ==> records@[k].issue_number != records@[j as int].issue_number,
                decreases j - i,
            {
                if records[i].issue_number == records[j].issue_number {
                    return None;
                }
                i += 1;
            }
            j += 1;
        }
        assert(records@.take(j as int) =~= records@);
        Some(StateStore { records })
    }

    /// The records, oldest claim first, for saving.
    pub fn records(&self) -> (records: Vec<AutomationRecord>)
        ensures
            records@ == self@,
    {
        let mut records: Vec<AutomationRecord> = Vec::new();
        let mut i: usize = 0;
        while i < self.records.len()
            invariant
                i <= self.records@.len(),
                records@ == self.records@.take(i as int),
            decreases self.records@.len() - i,
        {
            records.push(self.records[i]);
            i += 1;
        }
        records
    }

    /// The number of claimed issues.
    pub fn len(&self) -> (n: usize)
        ensures
            n == self@.len(),
    {
        self.records.len()
    }

    /// Where the record for `issue_number` stands, if there is one.
    fn find(&self, issue_number: u64) -> (found: Option<usize>)
        ensures
            match found {
                Some(i) => i < self@.len() && self@[i as int].issue_number == issue_number,
                None => !claimed(self@, issue_number),
            },
    {
        let mut i: usize = 0;
        while i < self.records.len()
            invariant
                i <= self.records@.len(),
                forall|j: int| 0 <= j < i ==> self.records@[j].issue_number != issue_number,
            decreases self.records@.len() - i,
        {
            if self.records[i].issue_number == issue_number {
                return Some(i);
            }
            i += 1;
        }
        None
    }

    /// Whether `issue_number` has been claimed already.
    pub fn automation_exists(&self, issue_number: u64) -> (exists: bool)
        ensures
            exists == claimed(self@, issue_number),
    {
        self.find(issue_number).is_some()
    }

    /// The record for `issue_number`, if it has been claimed.
    pub fn record(&self, issue_number: u64) -> (found: Option<AutomationRecord>)
        requires
            self.wf(),
        ensures
            found is Some <==> claimed(self@, issue_number),
            found is Some ==> found->0 == record_of(self@, issue_number),
    {
        match self.find(issue_number) {
            Some(i) => {
                Some(self.records[i])
            },
            None => None,
        }
    }

    /// Whether a plan has been posted for `issue_number`. An issue that was
    /// never claimed has no plan.
    pub fn has_plan(&self, issue_number: u64) -> (has: bool)
        requires
            self.wf(),
        ensures
            has == (claimed(self@, issue_number) && record_of(self@, issue_number).plan_exists),
    {
        match self.record(issue_number) {
            Some(record) => record.plan_exists,
            None => false,
        }
    }

    /// The time of the newest handled comment of `issue_number`, if the issue
    /// has been claimed.
    pub fn last_comment_time(&self, issue_number: u64) -> (seen: Option<u64>)
        requires
            self.wf(),
        ensures
            seen is Some <==> claimed(self@, issue_number),
            seen is Some ==> seen->0 == record_of(self@, issue_number).last_comment_time,
    {
        match self.record(issue_number) {
            Some(record) => Some(record.last_comment_time),
            None => None,
        }
    }

    /// Claims `issue_number` at time `now` unless it has been claimed before.
    /// Returns whether a record was created; an existing record is left as it is.
    pub fn create_record(&mut self, issue_number: u64, now: u64) -> (created: bool)
        requires
            old(self).wf(),
        ensures
            final(self).wf(),
            created == !claimed(old(self)@, issue_number),
            final(self)@ == with_claim(old(self)@, issue_number, now),
    {
        if self.automation_exists(issue_number) {
            return false;
        }
        self.records.push(
            AutomationRecord {
                issue_number,
                plan_exists: false,
                created_at: now,
                last_comment_time: now,
            },
        );
        true
    }

    /// Moves the last-seen comment time of `issue_number` forward to `seen`.
    /// The time never moves backwards, and an unclaimed issue changes nothing.
    pub fn advance_last_comment_time(&mut self, issue_number: u64, seen: u64)
        requires
            old(self).wf(),
        ensures
            final(self).wf(),
            final(self)@ == with_record_changed(
                old(self)@,
                issue_number,
                |r: AutomationRecord| advanced(r, seen),
            ),
    {
        match self.find(issue_number) {
            Some(i) => {
                let record = self.records[i];
                if seen > record.last_comment_time {
                    self.records.set(i, AutomationRecord { last_comment_time: seen, ..record });
                }
            },
            None => {},
        }
    }

    /// Records whether a plan has been posted for `issue_number`. An
    /// unclaimed issue changes nothing.
    pub fn set_plan_exists(&mut self, issue_number: u64, plan_exists: bool)
        requires
            old(self).wf(),
        ensures
            final(self).wf(),
            final(self)@ == with_record_changed(
                old(self)@,
                issue_number,
                |r: AutomationRecord| with_plan(r, plan_exists),
            ),
    {
        match self.find(issue_number) {
            Some(i) => {
                let record = self.records[i];
                self.records.set(i, AutomationRecord { plan_exists, ..record });
            },
            None => {},
        }
    }

    /// The claimed issues, oldest claim first.
    pub fn active_issues(&self) -> (issues: Vec<u64>)
        ensures
            issues@ == issue_numbers(self@),
    {
        let mut issues: Vec<u64> = Vec::new();
        let mut i: usize = 0;
        while i < self.records.len()
            invariant
                i <= self.records@.len(),
                issues@ == issue_numbers(self.records@.take(i as int)),
            decreases self.records@.len() - i,
        {
            issues.push(self.records[i].issue_number);
            i += 1;
        }
        issues
    }
}

/// In a store without duplicates the record of an issue stands where any
/// record for that issue stands.
pub proof fn lemma_position_is_unique(records: Seq<AutomationRecord>, issue_number: u64, at: int)
    requires
        distinct_issues(records),
        0 <= at < records.len(),
        records[at].issue_number == issue_number,
    ensures
        claimed(records, issue_number),
        position_of(records, issue_number) == at,
        record_of(records, issue_number) == records[at],
{
}

/// What a change to the record of one issue does to the store as a whole:
/// the same issues stay claimed, the record of `issue_number` is the changed
/// one, and every other record is what it was.
pub proof fn lemma_record_after_change(
    records: Seq<AutomationRecord>,
    issue_number: u64,
    change: spec_fn(AutomationRecord) -> AutomationRecord,
    other: u64,
)
    requires
        distinct_issues(records),
        forall|r: AutomationRecord| (#[trigger] change(r)).issue_number == r.issue_number,
    ensures
        distinct_issues(with_record_changed(records, issue_number, change)),
        claimed(with_record_changed(records, issue_number, change), other) == claimed(
            records,
            other,
        ),
        claimed(records, other) ==> record_of(
            with_record_changed(records, issue_number, change),
            other,
        ) == if other == issue_number {
            change(record_of(records, other))
        } else {
            record_of(records, other)
        },
{
    let after = with_record_changed(records, issue_number, change);
    if claimed(records, other) {
        let i = position_of(records, other);
        lemma_position_is_unique(after, other, i);
    }
}

/// `after` keeps what `before` has settled: every claimed issue stays
/// claimed, with the time of its claim, and no last-seen time moves back.
pub open spec fn keeps_history(
    before: Seq<AutomationRecord>,
    after: Seq<AutomationRecord>,
) -> bool {
    forall|issue_number: u64| #[trigger]
        claimed(before, issue_number) ==> {
            &&& claimed(after, issue_number)
            &&& record_of(after, issue_number).created_at == record_of(
                before,
                issue_number,
            ).created_at
            &&& record_of(after, issue_number).last_comment_time >= record_of(
                before,
                issue_number,
            ).last_comment_time
        }
}

/// History is kept from step to step: what holds of each of two steps in a
/// row holds of both together.
pub proof fn lemma_keeps_history_is_transitive(
    first: Seq<AutomationRecord>,
    second: Seq<AutomationRecord>,
    third: Seq<AutomationRecord>,
)
    requires
        keeps_history(first, second),
        keeps_history(second, third),
    ensures
        keeps_history(first, third),
{
}

/// New claims keep the history of the store.
pub proof fn lemma_new_claims_keep_history(
    records: Seq<AutomationRecord>,
    added: Seq<AutomationRecord>,
)
    requires
        distinct_issues(records + added),
    ensures
        keeps_history(records, records + added),
{
    let after = records + added;
    assert forall|issue_number: u64| #[trigger] claimed(records, issue_number) implies {
        &&& claimed(after, issue_number)
        &&& record_of(after, issue_number) == record_of(records, issue_number)
    } by {
        let i = position_of(records, issue_number);
        lemma_position_is_unique(after, issue_number, i);
    }
}

/// A change to one record keeps the history of the store, if it keeps the
/// record's issue and the time of its claim and does not move its last-seen
/// time back.
pub proof fn lemma_change_keeps_history(
    records: Seq<AutomationRecord>,
    issue_number: u64,
    change: spec_fn(AutomationRecord) -> AutomationRecord,
)
    requires
        distinct_issues(records),
        forall|r: AutomationRecord|
            {
                &&& (#[trigger] change(r)).issue_number == r.issue_number
                &&& change(r).created_at == r.created_at
                &&& change(r).last_comment_time >= r.last_comment_time
            },
    ensures
        keeps_history(records, with_record_changed(records, issue_number, change)),
        distinct_issues(with_record_changed(records, issue_number, change)),
{
    assert forall|other: u64| #[trigger] claimed(records, other) implies {
        let after = with_record_changed(records, issue_number, change);
        &&& claimed(after, other)
        &&& record_of(after, other).created_at == record_of(records, other).created_at
        &&& record_of(after, other).last_comment_time >= record_of(
            records,
            other,
        ).last_comment_time
    } by {
        lemma_record_after_change(records, issue_number, change, other);
    }
}

/// Moving a last-seen time forward and setting a plan flag keep the history
/// of the store.
pub proof fn lemma_store_updates_keep_history(
    records: Seq<AutomationRecord>,
    issue_number: u64,
    seen: u64,
    plan_exists: bool,
)
    requires
        distinct_issues(records),
    ensures
        keeps_history(
            records,
            with_record_changed(records, issue_number, |r: AutomationRecord| advanced(r, seen)),
        ),
        keeps_history(
            records,
            with_record_changed(
                records,
                issue_number,
                |r: AutomationRecord| with_plan(r, plan_exists),
            ),
        ),
{
    lemma_change_keeps_history(records, issue_number, |r: AutomationRecord| advanced(r, seen));
    lemma_change_keeps_history(
        records,
        issue_number,
        |r: AutomationRecord| with_plan(r, plan_exists),
    );
}

/// A claim keeps the store free of duplicates and keeps its history, and
/// afterwards the issue is claimed.
pub proof fn lemma_claim_keeps_history(records: Seq<AutomationRecord>, issue_number: u64, now: u64)
    requires
        distinct_issues(records),
    ensures
        distinct_issues(with_claim(records, issue_number, now)),
        claimed(with_claim(records, issue_number, now), issue_number),
        keeps_history(records, with_claim(records, issue_number, now)),
{
    if !claimed(records, issue_number) {
        let after = records.push(fresh_record(issue_number, now));
        assert(after[records.len() as int].issue_number == issue_number);
        assert(after =~= records + seq![fresh_record(issue_number, now)]);
        lemma_new_claims_keep_history(records, seq![fresh_record(issue_number, now)]);
    }
}

} // verus!
