//! The scheduler: the phases of a cycle and the state that is carried from
//! one cycle to the next.
//!
//! A cycle scans for triggers, polls the conversations, polls the feedback
//! on pull requests, monitors the sessions, cleans up, and sleeps, strictly in this
//! order. The sleep lasts as long as the poll interval that the activity
//! tracker gave when the cycle began. When the three observing phases are
//! over, what they saw is folded into the tracker.

use crate::activity::{after_cycle, interval_of, ActivityState, ActivityTracker, DaemonConfig};
use crate::handoff::Handoff;
use crate::poller::Delivery;
use vstd::prelude::*;

verus! {

/// The phases of a cycle, in the order in which they run.
#[derive(Clone, Copy, Debug, PartialEq, Eq, Structural)]
pub enum Phase {
    /// Find newly labeled issues and hand them to planners.
    TriggerScan,
    /// Fetch new comments of the claimed issues and route them.
    ConversationPoll,
    /// Fetch new comments on the daemon's pull requests.
    PrFeedback,
    /// Enforce the budgets and time limits of the sessions.
    SessionMonitoring,
    /// Release the workspaces of old sessions.
    Cleanup,
    /// Wait for the poll interval.
    Sleep,
}

/// The place of `phase` in the cycle, counted from zero.
pub open spec fn position(phase: Phase) -> int {
    match phase {
        Phase::TriggerScan => 0,
        Phase::ConversationPoll => 1,
        Phase::PrFeedback => 2,
        Phase::SessionMonitoring => 3,
        Phase::Cleanup => 4,
        Phase::Sleep => 5,
    }
}

/// The phase that follows `phase`; after the sleep a new cycle begins.
pub open spec fn phase_after(phase: Phase) -> Phase {
    match phase {
        Phase::TriggerScan => Phase::ConversationPoll,
        Phase::ConversationPoll => Phase::PrFeedback,
        Phase::PrFeedback => Phase::SessionMonitoring,
        Phase::SessionMonitoring => Phase::Cleanup,
        Phase::Cleanup => Phase::Sleep,
        Phase::Sleep => Phase::TriggerScan,
    }
}

impl Phase {
    /// The phase that follows this one.
    pub fn next(self) -> (following: Phase)
        ensures
            following == phase_after(self),
    {
        match self {
            Phase::TriggerScan => Phase::ConversationPoll,
            Phase::ConversationPoll => Phase::PrFeedback,
            Phase::PrFeedback => Phase::SessionMonitoring,
            Phase::SessionMonitoring => Phase::Cleanup,
            Phase::Cleanup => Phase::Sleep,
            Phase::Sleep => Phase::TriggerScan,
        }
    }
}

/// What the daemon carries through its cycles.
#[derive(Clone, Copy, Debug)]
pub struct SchedulerState {
    /// The activity state machine.
    pub tracker: ActivityTracker,
    /// The phase that is running.
    pub phase: Phase,
    /// Whether the running cycle has observed activity so far.
    pub activity_detected: bool,
    /// How long the running cycle sleeps at its end, in seconds.
    pub sleep_secs: u64,
}

/// The state at the beginning of a cycle with the given tracker.
pub open spec fn cycle_start(tracker: ActivityTracker, config: DaemonConfig) -> SchedulerState {
    SchedulerState {
        tracker,
        phase: Phase::TriggerScan,
        activity_detected: false,
        sleep_secs: interval_of(tracker.current, config),
    }
}

/// The state after the running phase finished at time `now`.
///
/// The end of the last observing phase folds the cycle's observation into the
/// tracker; the end of the sleep begins the next cycle; every other end only
/// moves on to the next phase.
pub open spec fn state_after_phase(
    state: SchedulerState,
    now: u64,
    config: DaemonConfig,
) -> SchedulerState {
    match state.phase {
        Phase::PrFeedback => SchedulerState {
            tracker: after_cycle(state.tracker, state.activity_detected, now, config),
            phase: Phase::SessionMonitoring,
            ..state
        },
        Phase::Sleep => cycle_start(state.tracker, config),
        _ => SchedulerState { phase: phase_after(state.phase), ..state },
    }
}

impl SchedulerState {
    /// The state at the beginning of the first cycle, at time `now`: the
    /// tracker is idle and has seen no activity.
    pub fn new(now: u64, config: &DaemonConfig) -> (state: SchedulerState)
        ensures
            state == cycle_start(
                ActivityTracker { current: ActivityState::Idle, last_activity: now },
                *config,
            ),
    {
        let tracker = ActivityTracker::new(now);
        SchedulerState {
            tracker,
            phase: Phase::TriggerScan,
            activity_detected: false,
            sleep_secs: tracker.current_interval(config),
        }
    }

    /// Notes what a phase observed: once a cycle has seen activity it stays seen.
    pub fn record_activity(&mut self, detected: bool)
        ensures
            *final(self) == (SchedulerState {
                activity_detected: old(self).activity_detected || detected,
                ..*old(self)
            }),
    {
        if detected {
            self.activity_detected = true;
        }
    }

    /// Notes the outcome of a poll: a delivery of new comments is activity.
    pub fn observe_delivery(&mut self, delivery: &Option<Delivery>)
        ensures
            *final(self) == (SchedulerState {
                activity_detected: old(self).activity_detected || delivery is Some,
                ..*old(self)
            }),
    {
        self.record_activity(delivery.is_some());
    }

    /// Notes the outcome of the handling of a trigger: a planner that was
    /// spawned is activity.
    pub fn observe_handoff(&mut self, handoff: &Handoff)
        ensures
            *final(self) == (SchedulerState {
                activity_detected: old(self).activity_detected || handoff.planner_spawned,
                ..*old(self)
            }),
    {
        self.record_activity(handoff.planner_spawned);
    }

    /// Ends the running phase at time `now` and returns the phase to run next.
    pub fn finish_phase(&mut self, now: u64, config: &DaemonConfig) -> (next: Phase)
        ensures
            *final(self) == state_after_phase(*old(self), now, *config),
            next == phase_after(old(self).phase),
    {
        match self.phase {
            Phase::PrFeedback => {
                self.tracker.on_cycle_result(self.activity_detected, now, config);
            },
            Phase::Sleep => {
                self.activity_detected = false;
                self.sleep_secs = self.tracker.current_interval(config);
            },
            _ => {},
        }
        self.phase = self.phase.next();
        self.phase
    }
}

/// The phases run strictly in sequence: each phase is followed by the one at
/// the next place, and the sleep, at the last place, by the first.
pub proof fn lemma_phases_run_in_sequence(phase: Phase)
    ensures
        0 <= position(phase) <= 5,
        position(phase_after(phase)) == (position(phase) + 1) % 6,
        phase_after(phase) != phase,
{
}

/// The state after `steps` phases have finished, all at time `now`.
pub open spec fn state_after_phases(
    state: SchedulerState,
    steps: nat,
    now: u64,
    config: DaemonConfig,
) -> SchedulerState
    decreases steps,
{
    if steps == 0 {
        state
    } else {
        state_after_phase(state_after_phases(state, (steps - 1) as nat, now, config), now, config)
    }
}

/// One whole cycle, from its beginning to the beginning of the next: the
/// phases come round to the trigger scan again, the tracker has taken in what
/// the cycle observed, and the sleep just ended lasted what the tracker gave
/// when the cycle began, not what it gives after the observation.
pub proof fn lemma_cycle(
    tracker: ActivityTracker,
    detected: bool,
    now: u64,
    config: DaemonConfig,
)
    ensures
        ({
            let begun = cycle_start(tracker, config);
            let observed = SchedulerState { activity_detected: detected, ..begun };
            let asleep = state_after_phases(observed, 5, now, config);
            let next = state_after_phase(asleep, now, config);
            &&& asleep.phase == Phase::Sleep
            &&& asleep.sleep_secs == interval_of(tracker.current, config)
            &&& asleep.tracker == after_cycle(tracker, detected, now, config)
            &&& next == cycle_start(after_cycle(tracker, detected, now, config), config)
        }),
{
    reveal_with_fuel(state_after_phases, 6);
}

} // verus!
