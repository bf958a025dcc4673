//! Adaptive polling cadence: the activity state machine and its intervals.
//!
//! The daemon polls slowly while nothing happens and quickly while a
//! conversation is in full swing. `ActivityTracker` holds the current
//! `ActivityState` and the time of the last observed activity; each cycle
//! reports whether it saw any, and the tracker picks the state that decides
//! how long the daemon sleeps before it polls again.

use vstd::prelude::*;

verus! {

/// How busy the tracked conversations have been lately.
#[derive(Clone, Copy, Debug, PartialEq, Eq, Structural)]
pub enum ActivityState {
    /// No recent activity: poll at the slowest rate.
    Idle,
    /// Activity seen within the timeout: poll faster.
    Active,
    /// Rapid back-and-forth: poll at the fastest rate.
    VeryActive,
}

/// Two observations closer together than this many seconds count as rapid,
/// and a rapid conversation that stays quiet for longer slows down.
pub const RAPID_GAP_SECS: u64 = 120;

/// The cadence options of the daemon.
#[derive(Clone, Copy, Debug)]
pub struct DaemonConfig {
    /// Seconds between polls while `Idle`.
    pub poll_interval_idle_secs: u64,
    /// Seconds between polls while `Active`.
    pub poll_interval_active_secs: u64,
    /// Seconds between polls while `VeryActive`.
    pub poll_interval_very_active_secs: u64,
    /// Minutes without activity after which the tracker falls back to `Idle`.
    pub activity_timeout_minutes: u64,
}

impl DaemonConfig {
    /// The idle interval is the longest and the very active one the shortest.
    pub open spec fn ordered(&self) -> bool {
        self.poll_interval_idle_secs > self.poll_interval_active_secs
            > self.poll_interval_very_active_secs
    }

    /// The activity timeout in seconds, as a mathematical integer.
    pub open spec fn timeout_secs(&self) -> int {
        self.activity_timeout_minutes * 60
    }

    /// Whether `idle_for` seconds of silence exceed the activity timeout.
    pub fn timed_out(&self, idle_for: u64) -> (expired: bool)
        ensures
            expired == (idle_for > self.timeout_secs()),
    {
        match self.activity_timeout_minutes.checked_mul(60) {
            Some(limit) => idle_for > limit,
            None => false,
        }
    }
}

impl Default for DaemonConfig {
    /// Polls every 60, 15 and 5 seconds and times out after 10 minutes.
    fn default() -> (config: DaemonConfig)
        ensures
            config.poll_interval_idle_secs == 60,
            config.poll_interval_active_secs == 15,
            config.poll_interval_very_active_secs == 5,
            config.activity_timeout_minutes == 10,
            config.ordered(),
    {
        DaemonConfig {
            poll_interval_idle_secs: 60,
            poll_interval_active_secs: 15,
            poll_interval_very_active_secs: 5,
            activity_timeout_minutes: 10,
        }
    }
}

/// Seconds from `earlier` to `now`, zero when `now` is not after `earlier`.
pub open spec fn elapsed_secs(now: u64, earlier: u64) -> int {
    if now >= earlier {
        now - earlier
    } else {
        0
    }
}

/// Computes `elapsed_secs`.
pub fn elapsed(now: u64, earlier: u64) -> (gap: u64)
    ensures
        gap == elapsed_secs(now, earlier),
{
    if now >= earlier {
        now - earlier
    } else {
        0
    }
}

/// The interval that `config` assigns to `state`.
pub open spec fn interval_of(state: ActivityState, config: DaemonConfig) -> u64 {
    match state {
        ActivityState::Idle => config.poll_interval_idle_secs,
        ActivityState::Active => config.poll_interval_active_secs,
        ActivityState::VeryActive => config.poll_interval_very_active_secs,
    }
}

/// The state after a cycle that observed activity `gap` seconds after the
/// previous activity.
pub open spec fn state_after_activity(gap: int) -> ActivityState {
    if gap < RAPID_GAP_SECS {
        ActivityState::VeryActive
    } else {
        ActivityState::Active
    }
}

/// The state after a cycle that observed nothing, `idle_for` seconds after
/// the last activity.
pub open spec fn state_after_silence(
    current: ActivityState,
    idle_for: int,
    timeout_secs: int,
) -> ActivityState {
    if idle_for > timeout_secs {
        ActivityState::Idle
    } else if current == ActivityState::VeryActive && idle_for > RAPID_GAP_SECS {
        ActivityState::Active
    } else {
        current
    }
}

/// The tracker's state after one cycle, as a function of what it was before.
pub open spec fn after_cycle(
    before: ActivityTracker,
    activity_detected: bool,
    now: u64,
    config: DaemonConfig,
) -> ActivityTracker {
    let since = elapsed_secs(now, before.last_activity);
    if activity_detected {
        ActivityTracker { current: state_after_activity(since), last_activity: now }
    } else {
        ActivityTracker {
            current: state_after_silence(before.current, since, config.timeout_secs()),
            last_activity: before.last_activity,
        }
    }
}

/// The activity state machine: the current state and when activity was last seen.
#[derive(Clone, Copy, Debug)]
pub struct ActivityTracker {
    /// The state that decides the next poll interval.
    pub current: ActivityState,
    /// Timestamp, in seconds, of the last cycle that observed activity.
    pub last_activity: u64,
}

impl ActivityTracker {
    /// A tracker that starts `Idle` at time `now`.
    pub fn new(now: u64) -> (tracker: ActivityTracker)
        ensures
            tracker.current == ActivityState::Idle,
            tracker.last_activity == now,
    {
        ActivityTracker { current: ActivityState::Idle, last_activity: now }
    }

    /// The poll interval, in seconds, that `config` assigns to `state`.
    pub fn poll_interval(state: ActivityState, config: &DaemonConfig) -> (secs: u64)
        ensures
            secs == interval_of(state, *config),
    {
        match state {
            ActivityState::Idle => config.poll_interval_idle_secs,
            ActivityState::Active => config.poll_interval_active_secs,
            ActivityState::VeryActive => config.poll_interval_very_active_secs,
        }
    }

    /// The poll interval of the tracker's current state.
    pub fn current_interval(&self, config: &DaemonConfig) -> (secs: u64)
        ensures
            secs == interval_of(self.current, *config),
    {
        Self::poll_interval(self.current, config)
    }

    /// Folds the outcome of one cycle, finished at time `now`, into the tracker.
    ///
    /// With activity the tracker becomes `VeryActive` if the previous activity
    /// was less than `RAPID_GAP_SECS` ago and `Active` otherwise, and remembers
    /// `now`. Without activity it falls to `Idle` once the silence exceeds the
    /// timeout, steps from `VeryActive` down to `Active` once the silence
    /// exceeds `RAPID_GAP_SECS`, and otherwise stays as it is.
    pub fn on_cycle_result(&mut self, activity_detected: bool, now: u64, config: &DaemonConfig)
        ensures
            *final(self) == after_cycle(*old(self), activity_detected, now, *config),
    {
        let since = elapsed(now, self.last_activity);
        if activity_detected {
            self.current = if since < RAPID_GAP_SECS {
                ActivityState::VeryActive
            } else {
                ActivityState::Active
            };
            self.last_activity = now;
        } else if config.timed_out(since) {
            self.current = ActivityState::Idle;
        } else if since > RAPID_GAP_SECS && self.current == ActivityState::VeryActive {
            self.current = ActivityState::Active;
        }
    }
}

/// How fast a state polls: a higher rank means a shorter interval.
pub open spec fn rank(state: ActivityState) -> int {
    match state {
        ActivityState::Idle => 0,
        ActivityState::Active => 1,
        ActivityState::VeryActive => 2,
    }
}

/// A cycle without activity never speeds the tracker up: the state keeps its
/// rank or loses some, so in particular `Idle` stays `Idle` and only a cycle
/// that observed activity can lead from `Idle` to `VeryActive`. The time of
/// the last activity is left alone.
pub proof fn lemma_silence_never_speeds_up(
    before: ActivityTracker,
    now: u64,
    config: DaemonConfig,
)
    ensures
        rank(after_cycle(before, false, now, config).current) <= rank(before.current),
        before.current == ActivityState::Idle ==> after_cycle(before, false, now, config).current
            == ActivityState::Idle,
        after_cycle(before, false, now, config).current == ActivityState::VeryActive
            ==> before.current == ActivityState::VeryActive,
        after_cycle(before, false, now, config).last_activity == before.last_activity,
{
}

/// A silent cycle takes the tracker from a faster state to `Idle` exactly when
/// the silence has lasted longer than the activity timeout; until then
/// `VeryActive` steps down no further than `Active`.
pub proof fn lemma_idle_only_after_timeout(
    before: ActivityTracker,
    now: u64,
    config: DaemonConfig,
)
    requires
        before.current != ActivityState::Idle,
    ensures
        after_cycle(before, false, now, config).current == ActivityState::Idle <==> elapsed_secs(
            now,
            before.last_activity,
        ) > config.timeout_secs(),
        before.current == ActivityState::VeryActive && elapsed_secs(now, before.last_activity)
            <= config.timeout_secs() ==> rank(after_cycle(before, false, now, config).current)
            >= 1,
{
}

/// With ordered intervals a faster state never waits longer than a slower one.
pub proof fn lemma_faster_state_polls_sooner(
    slower: ActivityState,
    faster: ActivityState,
    config: DaemonConfig,
)
    requires
        config.ordered(),
        rank(slower) < rank(faster),
    ensures
        interval_of(faster, config) < interval_of(slower, config),
{
}

/// The tracker after a run of cycles, each given by what it observed and when
/// it finished.
pub open spec fn after_cycles(
    tracker: ActivityTracker,
    cycles: Seq<(bool, u64)>,
    config: DaemonConfig,
) -> ActivityTracker
    decreases cycles.len(),
{
    if cycles.len() == 0 {
        tracker
    } else {
        after_cycle(
            after_cycles(tracker, cycles.drop_last(), config),
            cycles.last().0,
            cycles.last().1,
            config,
        )
    }
}

/// However long the silence lasts, it never speeds the tracker up: over any
/// run of cycles that observed no activity the tracker keeps its rank or
/// loses some. An idle tracker stays idle until a cycle observes activity,
/// and after such a run the tracker is very active only if it was before.
pub proof fn lemma_idle_until_activity(
    tracker: ActivityTracker,
    cycles: Seq<(bool, u64)>,
    config: DaemonConfig,
)
    requires
        forall|i: int| 0 <= i < cycles.len() ==> !(#[trigger] cycles[i]).0,
    ensures
        rank(after_cycles(tracker, cycles, config).current) <= rank(tracker.current),
        after_cycles(tracker, cycles, config).last_activity == tracker.last_activity,
        tracker.current == ActivityState::Idle ==> after_cycles(tracker, cycles, config).current
            == ActivityState::Idle,
        after_cycles(tracker, cycles, config).current == ActivityState::VeryActive
            ==> tracker.current == ActivityState::VeryActive,
    decreases cycles.len(),
{
    if cycles.len() > 0 {
        let shorter = cycles.drop_last();
        assert forall|i: int| 0 <= i < shorter.len() implies !(#[trigger] shorter[i]).0 by {
            assert(shorter[i] == cycles[i]);
        }
        lemma_idle_until_activity(tracker, shorter, config);
        lemma_silence_never_speeds_up(
            after_cycles(tracker, shorter, config),
            cycles.last().1,
            config,
        );
    }
}

/// Silence alone leads to `Idle` only through the timeout: when a run of
/// cycles without activity takes a tracker that was not idle to `Idle`, one of
/// the cycles finished more than the activity timeout after the last activity.
pub proof fn lemma_idle_only_through_timeout(
    tracker: ActivityTracker,
    cycles: Seq<(bool, u64)>,
    config: DaemonConfig,
)
    requires
        forall|i: int| 0 <= i < cycles.len() ==> !(#[trigger] cycles[i]).0,
        tracker.current != ActivityState::Idle,
        after_cycles(tracker, cycles, config).current == ActivityState::Idle,
    ensures
        exists|i: int|
            0 <= i < cycles.len() && elapsed_secs((#[trigger] cycles[i]).1, tracker.last_activity)
                > config.timeout_secs(),
    decreases cycles.len(),
{
    let shorter = cycles.drop_last();
    let before = after_cycles(tracker, shorter, config);
    assert forall|i: int| 0 <= i < shorter.len() implies !(#[trigger] shorter[i]).0 by {
        assert(shorter[i] == cycles[i]);
    }
    lemma_idle_until_activity(tracker, shorter, config);
    if before.current == ActivityState::Idle {
        lemma_idle_only_through_timeout(tracker, shorter, config);
        let i = choose|i: int|
            0 <= i < shorter.len() && elapsed_secs((#[trigger] shorter[i]).1, tracker.last_activity)
                > config.timeout_secs();
        assert(cycles[i] == shorter[i]);
    } else {
        lemma_idle_only_after_timeout(before, cycles.last().1, config);
        assert(cycles[cycles.len() - 1] == cycles.last());
    }
}

} // verus!
