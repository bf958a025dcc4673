//! The handling of one trigger: planner first, executor after it.
//!
//! A newly claimed issue gets a planner. When the planner has been spawned
//! the daemon waits a fixed grace interval, so that the plan can be posted,
//! and then spawns an executor for the same issue, once, whatever the wait
//! and the spawn turn out to be. The steps form one sequence inside the
//! handling of the trigger: the daemon performs the action that the handoff
//! names and reports how it went, and the handoff names the next action.

use crate::store::{
    claimed, distinct_issues, keeps_history, lemma_change_keeps_history,
    lemma_claim_keeps_history, lemma_keeps_history_is_transitive, lemma_record_after_change,
    record_of, with_claim, with_plan, with_record_changed, AutomationRecord, StateStore,
};
use crate::trigger::TriggerRequest;
use vstd::prelude::*;

verus! {

/// Seconds between a successful planner spawn and the executor spawn.
pub const HANDOFF_GRACE_SECS: u64 = 15;

/// What the handling of a trigger is waiting for.
#[derive(Clone, Copy, Debug, PartialEq, Eq, Structural)]
pub enum HandoffStep {
    /// The planner spawn has been asked for.
    AwaitingPlanner,
    /// The planner runs; the grace interval is being waited out.
    Grace,
    /// The executor spawn has been asked for.
    AwaitingExecutor,
    /// The trigger has been handled.
    Done,
}

/// What the daemon is to do next for a trigger.
#[derive(Clone, Copy, Debug, PartialEq, Eq, Structural)]
pub enum HandoffAction {
    /// Spawn a planner for the issue.
    SpawnPlanner { issue_number: u64 },
    /// Wait for the given number of seconds.
    Wait { secs: u64 },
    /// Spawn an executor for the issue.
    SpawnExecutor { issue_number: u64 },
}

/// The handling of one trigger.
#[derive(Clone, Copy, Debug, PartialEq, Eq, Structural)]
pub struct Handoff {
    /// The issue that was triggered.
    pub issue_number: u64,
    /// What the handling is waiting for.
    pub step: HandoffStep,
    /// Whether the planner was spawned: the activity that this trigger caused.
    pub planner_spawned: bool,
}

/// The handling of a trigger for `issue_number`, right after it began.
pub open spec fn started(issue_number: u64) -> Handoff {
    Handoff { issue_number, step: HandoffStep::AwaitingPlanner, planner_spawned: false }
}

/// The handling after the daemon reported that the awaited action succeeded
/// or failed.
pub open spec fn handoff_after(handoff: Handoff, succeeded: bool) -> Handoff {
    match handoff.step {
        HandoffStep::AwaitingPlanner => if succeeded {
            Handoff { step: HandoffStep::Grace, planner_spawned: true, ..handoff }
        } else {
            Handoff { step: HandoffStep::Done, ..handoff }
        },
        HandoffStep::Grace => Handoff { step: HandoffStep::AwaitingExecutor, ..handoff },
        HandoffStep::AwaitingExecutor => Handoff { step: HandoffStep::Done, ..handoff },
        HandoffStep::Done => handoff,
    }
}

/// The action that follows the report, if the handling goes on.
pub open spec fn action_after(handoff: Handoff, succeeded: bool) -> Option<HandoffAction> {
    match handoff.step {
        HandoffStep::AwaitingPlanner => if succeeded {
            Some(HandoffAction::Wait { secs: HANDOFF_GRACE_SECS })
        } else {
            None
        },
        HandoffStep::Grace => Some(
            HandoffAction::SpawnExecutor { issue_number: handoff.issue_number },
        ),
        HandoffStep::AwaitingExecutor => None,
        HandoffStep::Done => None,
    }
}

/// The store after a planner was spawned for `issue_number` at time `now`:
/// the issue is claimed, if it was not, and its record says that no plan exists.
pub open spec fn store_after_planner_spawn(
    records: Seq<AutomationRecord>,
    issue_number: u64,
    now: u64,
) -> Seq<AutomationRecord> {
    with_record_changed(
        with_claim(records, issue_number, now),
        issue_number,
        |r: AutomationRecord| with_plan(r, false),
    )
}

/// The store after the report: only a successful planner spawn changes it.
pub open spec fn store_after_report(
    records: Seq<AutomationRecord>,
    handoff: Handoff,
    succeeded: bool,
    now: u64,
) -> Seq<AutomationRecord> {
    if handoff.step == HandoffStep::AwaitingPlanner && succeeded {
        store_after_planner_spawn(records, handoff.issue_number, now)
    } else {
        records
    }
}

impl Handoff {
    /// Begins the handling of `request`: the first action is the planner spawn.
    pub fn begin(request: TriggerRequest) -> (begun: (Handoff, HandoffAction))
        ensures
            begun.0 == started(request.issue_number),
            begun.1 == (HandoffAction::SpawnPlanner { issue_number: request.issue_number }),
    {
        (
            Handoff {
                issue_number: request.issue_number,
                step: HandoffStep::AwaitingPlanner,
                planner_spawned: false,
            },
            HandoffAction::SpawnPlanner { issue_number: request.issue_number },
        )
    }

    /// Whether the trigger has been handled.
    pub fn is_done(&self) -> (done: bool)
        ensures
            done == (self.step == HandoffStep::Done),
    {
        self.step == HandoffStep::Done
    }

    /// Takes the report on the awaited action, at time `now`, and names the
    /// next action.
    ///
    /// After a successful planner spawn the issue's record is made sure of,
    /// with no plan yet, and the grace interval is to be waited out. After
    /// the wait the executor is to be spawned, whether or not the wait went
    /// well. After the executor spawn, and after a failed planner spawn, the
    /// handling is done, and nothing is tried again.
    pub fn advance(&mut self, store: &mut StateStore, succeeded: bool, now: u64) -> (action:
        Option<HandoffAction>)
        requires
            old(store).wf(),
        ensures
            final(store).wf(),
            *final(self) == handoff_after(*old(self), succeeded),
            action == action_after(*old(self), succeeded),
            final(store)@ == store_after_report(old(store)@, *old(self), succeeded, now),
    {
        match self.step {
            HandoffStep::AwaitingPlanner => {
                if succeeded {
                    store.create_record(self.issue_number, now);
                    store.set_plan_exists(self.issue_number, false);
                    self.step = HandoffStep::Grace;
                    self.planner_spawned = true;
                    Some(HandoffAction::Wait { secs: HANDOFF_GRACE_SECS })
                } else {
                    self.step = HandoffStep::Done;
                    None
                }
            },
            HandoffStep::Grace => {
                self.step = HandoffStep::AwaitingExecutor;
                Some(HandoffAction::SpawnExecutor { issue_number: self.issue_number })
            },
            HandoffStep::AwaitingExecutor => {
                self.step = HandoffStep::Done;
                None
            },
            HandoffStep::Done => None,
        }
    }
}

/// The steps of a handling: where `handoff` stands after the reports in
/// `outcomes`, and the actions that it named on the way.
pub open spec fn run(handoff: Handoff, outcomes: Seq<bool>) -> (Handoff, Seq<HandoffAction>)
    decreases outcomes.len(),
{
    if outcomes.len() == 0 {
        (handoff, Seq::empty())
    } else {
        let (so_far, named) = run(handoff, outcomes.drop_last());
        let next = handoff_after(so_far, outcomes.last());
        match action_after(so_far, outcomes.last()) {
            Some(action) => (next, named.push(action)),
            None => (next, named),
        }
    }
}

/// How many of `actions` spawn an executor.
pub open spec fn executor_spawns(actions: Seq<HandoffAction>) -> nat
    decreases actions.len(),
{
    if actions.len() == 0 {
        0
    } else {
        executor_spawns(actions.drop_last()) + if actions.last() is SpawnExecutor {
            1nat
        } else {
            0nat
        }
    }
}

/// The whole course of a handling, whatever is reported and however long the
/// reports go on. A failed planner spawn ends it with no further action. A
/// successful one is followed by the wait and then by the executor spawn for
/// the same issue, and by nothing else: the outcomes of the wait and of the
/// executor spawn change nothing, and once done the handling names no action.
pub proof fn lemma_course_of_handoff(issue_number: u64, outcomes: Seq<bool>)
    ensures
        ({
            let (end, named) = run(started(issue_number), outcomes);
            let wait = HandoffAction::Wait { secs: HANDOFF_GRACE_SECS };
            let spawn = HandoffAction::SpawnExecutor { issue_number };
            &&& end.issue_number == issue_number
            &&& outcomes.len() == 0 ==> named == Seq::<HandoffAction>::empty() && end.step
                == HandoffStep::AwaitingPlanner
            &&& outcomes.len() >= 1 && !outcomes[0] ==> named == Seq::<HandoffAction>::empty()
                && end.step == HandoffStep::Done
            &&& outcomes.len() == 1 && outcomes[0] ==> named == seq![wait] && end.step
                == HandoffStep::Grace
            &&& outcomes.len() == 2 && outcomes[0] ==> named == seq![wait, spawn] && end.step
                == HandoffStep::AwaitingExecutor
            &&& outcomes.len() >= 3 && outcomes[0] ==> named == seq![wait, spawn] && end.step
                == HandoffStep::Done
            &&& end.planner_spawned == (outcomes.len() >= 1 && outcomes[0])
        }),
    decreases outcomes.len(),
{
    if outcomes.len() > 0 {
        lemma_course_of_handoff(issue_number, outcomes.drop_last());
    }
}

/// Sequencing: within the handling of a trigger, a successful planner spawn
/// is followed by exactly one executor spawn, for the same issue, as soon as
/// the wait has been reported, and by no second one however the executor
/// spawn goes; a failed planner spawn is followed by none.
pub proof fn lemma_exactly_one_executor_after_planner(issue_number: u64, outcomes: Seq<bool>)
    ensures
        ({
            let named = run(started(issue_number), outcomes).1;
            &&& executor_spawns(named) == if outcomes.len() >= 2 && outcomes[0] {
                1nat
            } else {
                0nat
            }
            &&& forall|k: int|
                0 <= k < named.len() && (#[trigger] named[k]) is SpawnExecutor ==> named[k]
                    == (HandoffAction::SpawnExecutor { issue_number })
        }),
{
    lemma_course_of_handoff(issue_number, outcomes);
    let named = run(started(issue_number), outcomes).1;
    let wait = HandoffAction::Wait { secs: HANDOFF_GRACE_SECS };
    if outcomes.len() >= 2 && outcomes[0] {
        assert(named.drop_last() =~= seq![wait]);
        assert(executor_spawns(seq![wait]) == 0) by {
            reveal_with_fuel(executor_spawns, 2);
        }
    } else if outcomes.len() == 1 && outcomes[0] {
        assert(executor_spawns(named) == 0) by {
            reveal_with_fuel(executor_spawns, 2);
        }
    }
}

/// The handling of a trigger keeps the store free of duplicates and keeps
/// its history, whatever is reported.
pub proof fn lemma_handoff_keeps_history(
    records: Seq<AutomationRecord>,
    handoff: Handoff,
    succeeded: bool,
    now: u64,
)
    requires
        distinct_issues(records),
    ensures
        distinct_issues(store_after_report(records, handoff, succeeded, now)),
        keeps_history(records, store_after_report(records, handoff, succeeded, now)),
{
    if handoff.step == HandoffStep::AwaitingPlanner && succeeded {
        let issue_number = handoff.issue_number;
        let ensured = with_claim(records, issue_number, now);
        lemma_claim_keeps_history(records, issue_number, now);
        lemma_change_keeps_history(
            ensured,
            issue_number,
            |r: AutomationRecord| with_plan(r, false),
        );
        lemma_keeps_history_is_transitive(
            records,
            ensured,
            store_after_planner_spawn(records, issue_number, now),
        );
    }
}

/// The record comes before the executor. When a planner has been spawned for
/// an issue, the issue has its record, without a plan, before the handling
/// goes on to the wait and to the executor spawn; and since every later step
/// keeps the history of the store, the record is there when the executor is
/// spawned.
pub proof fn lemma_record_precedes_executor(
    records: Seq<AutomationRecord>,
    issue_number: u64,
    now: u64,
)
    requires
        distinct_issues(records),
    ensures
        claimed(store_after_planner_spawn(records, issue_number, now), issue_number),
        !record_of(store_after_planner_spawn(records, issue_number, now), issue_number).plan_exists,
        store_after_report(records, started(issue_number), true, now) == store_after_planner_spawn(
            records,
            issue_number,
            now,
        ),
{
    lemma_claim_keeps_history(records, issue_number, now);
    lemma_record_after_change(
        with_claim(records, issue_number, now),
        issue_number,
        |r: AutomationRecord| with_plan(r, false),
        issue_number,
    );
}

} // verus!
