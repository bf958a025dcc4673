//! Agent sessions: their lifecycle, their budgets, and the orchestrator that
//! owns them.
//!
//! A session is requested, runs, and ends completed, killed or failed. The
//! orchestrator alone decides to spawn and to kill; the outside runner starts
//! and stops the processes and reports back. Each cycle the orchestrator looks
//! at the running sessions and kills those that have used up their budget or
//! have run past the time limit.

use crate::activity::elapsed_secs;
use crate::router::Agent;
use vstd::prelude::*;

verus! {

/// Where a session stands in its lifecycle.
#[derive(Clone, Copy, Debug, PartialEq, Eq, Structural)]
pub enum SessionState {
    /// The spawn has been asked for and not yet answered.
    Requested,
    /// The runner has started the session.
    Running,
    /// The runner reported success.
    Completed,
    /// The orchestrator ended the session for budget or time.
    Killed,
    /// The spawn itself failed.
    Failed,
}

/// What can happen to a session.
#[derive(Clone, Copy, Debug, PartialEq, Eq, Structural)]
pub enum SessionEvent {
    /// The runner started the session.
    SpawnSucceeded,
    /// The runner could not start the session.
    SpawnFailed,
    /// The runner reported that the session finished its work.
    Finished,
    /// The session has no budget left.
    BudgetExhausted,
    /// The session has run longer than the time limit.
    TimedOut,
}

/// `state` is one that no session leaves.
pub open spec fn is_terminal(state: SessionState) -> bool {
    state == SessionState::Completed || state == SessionState::Killed || state
        == SessionState::Failed
}

/// The lifecycle: the state that follows `state` on `event`. An event that
/// does not apply to a state leaves it as it is.
pub open spec fn state_after(state: SessionState, event: SessionEvent) -> SessionState {
    match (state, event) {
        (SessionState::Requested, SessionEvent::SpawnSucceeded) => SessionState::Running,
        (SessionState::Requested, SessionEvent::SpawnFailed) => SessionState::Failed,
        (SessionState::Running, SessionEvent::Finished) => SessionState::Completed,
        (SessionState::Running, SessionEvent::BudgetExhausted) => SessionState::Killed,
        (SessionState::Running, SessionEvent::TimedOut) => SessionState::Killed,
        _ => state,
    }
}

impl SessionState {
    /// Whether no transition leaves this state.
    pub fn is_terminal(self) -> (terminal: bool)
        ensures
            terminal == is_terminal(self),
    {
        match self {
            SessionState::Completed | SessionState::Killed | SessionState::Failed => true,
            _ => false,
        }
    }

    /// The state that follows this one on `event`.
    pub fn on_event(self, event: SessionEvent) -> (next: SessionState)
        ensures
            next == state_after(self, event),
    {
        match (self, event) {
            (SessionState::Requested, SessionEvent::SpawnSucceeded) => SessionState::Running,
            (SessionState::Requested, SessionEvent::SpawnFailed) => SessionState::Failed,
            (SessionState::Running, SessionEvent::Finished) => SessionState::Completed,
            (SessionState::Running, SessionEvent::BudgetExhausted) => SessionState::Killed,
            (SessionState::Running, SessionEvent::TimedOut) => SessionState::Killed,
            _ => self,
        }
    }
}

/// Terminal states are sticky: no event leads out of one.
pub proof fn lemma_terminal_states_are_sticky(state: SessionState, event: SessionEvent)
    requires
        is_terminal(state),
    ensures
        state_after(state, event) == state,
{
}

/// The lifecycle has no other edges than these: a requested session starts
/// running or fails, and a running session completes or is killed, and it is
/// killed only for budget or time.
pub proof fn lemma_lifecycle_edges(state: SessionState, event: SessionEvent)
    ensures
        state_after(state, event) == SessionState::Running ==> state == SessionState::Running || (
        state == SessionState::Requested && event == SessionEvent::SpawnSucceeded),
        state_after(state, event) == SessionState::Failed ==> state == SessionState::Failed || (
        state == SessionState::Requested && event == SessionEvent::SpawnFailed),
        state_after(state, event) == SessionState::Completed ==> state == SessionState::Completed
            || (state == SessionState::Running && event == SessionEvent::Finished),
        state_after(state, event) == SessionState::Killed ==> state == SessionState::Killed || (
        state == SessionState::Running && (event == SessionEvent::BudgetExhausted || event
            == SessionEvent::TimedOut)),
        state_after(state, event) == SessionState::Requested ==> state == SessionState::Requested,
{
}

/// Names a session for as long as the orchestrator knows it.
#[derive(Clone, Copy, Debug, PartialEq, Eq, Structural)]
pub struct SessionHandle(pub u64);

/// One agent session.
#[derive(Clone, Copy, Debug)]
pub struct Session {
    /// The orchestrator's name for the session.
    pub handle: SessionHandle,
    /// Planner or executor, fixed when the session is spawned.
    pub agent_kind: Agent,
    /// Whether the runner hands the conversation so far to the agent.
    pub with_context: bool,
    /// The issue the session works on.
    pub issue_number: u64,
    /// The workspace that the session works in.
    pub workspace_handle: u64,
    /// When the session was requested, in seconds.
    pub started_at: u64,
    /// What is left of the session's budget.
    pub budget_remaining: u64,
    /// Where the session stands in its lifecycle.
    pub state: SessionState,
}

/// The limits that the monitoring pass enforces.
#[derive(Clone, Copy, Debug)]
pub struct SessionLimits {
    /// The budget that a new session starts with.
    pub session_budget: u64,
    /// The longest that a session may run, in seconds.
    pub max_duration_secs: u64,
}

/// `session` with `event` applied to its state.
pub open spec fn session_after(session: Session, event: SessionEvent) -> Session {
    Session { state: state_after(session.state, event), ..session }
}

/// `session` after the runner reported that it spent `spent` of its budget:
/// a running session pays, down to zero; any other session is left alone.
pub open spec fn session_charged(session: Session, spent: u64) -> Session {
    if session.state == SessionState::Running {
        Session {
            budget_remaining: if spent >= session.budget_remaining {
                0
            } else {
                (session.budget_remaining - spent) as u64
            },
            ..session
        }
    } else {
        session
    }
}

/// Why the monitoring pass has to kill `session` at time `now`, if it has to:
/// a running session without budget, or one that has run longer than the limit.
pub open spec fn overrun(session: Session, now: u64, limits: SessionLimits) -> Option<
    SessionEvent,
> {
    if session.state != SessionState::Running {
        None
    } else if session.budget_remaining == 0 {
        Some(SessionEvent::BudgetExhausted)
    } else if elapsed_secs(now, session.started_at) > limits.max_duration_secs {
        Some(SessionEvent::TimedOut)
    } else {
        None
    }
}

/// `session` after the monitoring pass at time `now`.
pub open spec fn monitored(session: Session, now: u64, limits: SessionLimits) -> Session {
    match overrun(session, now, limits) {
        Some(event) => session_after(session, event),
        None => session,
    }
}

impl Session {
    /// Why the monitoring pass has to kill this session at time `now`, if it
    /// has to.
    pub fn overrun(&self, now: u64, limits: &SessionLimits) -> (reason: Option<SessionEvent>)
        ensures
            reason == overrun(*self, now, *limits),
    {
        if self.state != SessionState::Running {
            None
        } else if self.budget_remaining == 0 {
            Some(SessionEvent::BudgetExhausted)
        } else if crate::activity::elapsed(now, self.started_at) > limits.max_duration_secs {
            Some(SessionEvent::TimedOut)
        } else {
            None
        }
    }
}

/// An order to the runner to stop a session that the monitoring pass killed.
#[derive(Clone, Copy, Debug)]
pub struct Termination {
    /// The session to stop.
    pub handle: SessionHandle,
    /// The issue that the session worked on.
    pub issue_number: u64,
    /// The workspace that the session worked in.
    pub workspace_handle: u64,
    /// `BudgetExhausted` or `TimedOut`.
    pub reason: SessionEvent,
}

/// `session` has to be killed at time `now`.
pub open spec fn is_overrun(session: Session, now: u64, limits: SessionLimits) -> bool {
    overrun(session, now, limits) is Some
}

/// The order that stops an overrun `session`.
pub open spec fn termination_of(session: Session, now: u64, limits: SessionLimits) -> Termination {
    Termination {
        handle: session.handle,
        issue_number: session.issue_number,
        workspace_handle: session.workspace_handle,
        reason: overrun(session, now, limits)->0,
    }
}

/// The orders of a monitoring pass over `sessions`: one for each overrun
/// session, in the order of the sessions.
pub open spec fn terminations(sessions: Seq<Session>, now: u64, limits: SessionLimits) -> Seq<
    Termination,
> {
    sessions.filter(|s: Session| is_overrun(s, now, limits)).map_values(
        |s: Session| termination_of(s, now, limits),
    )
}

/// Some session in `sessions` has the handle `handle`.
pub open spec fn known(sessions: Seq<Session>, handle: SessionHandle) -> bool {
    exists|i: int| 0 <= i < sessions.len() && (#[trigger] sessions[i]).handle == handle
}

/// The session in `sessions` that has the handle `handle`, where there is one.
pub open spec fn session_named(sessions: Seq<Session>, handle: SessionHandle) -> Session {
    sessions[choose|i: int| 0 <= i < sessions.len() && (#[trigger] sessions[i]).handle == handle]
}

/// Some session in `sessions` that has not ended works in `workspace_handle`.
pub open spec fn workspace_in_use(sessions: Seq<Session>, workspace_handle: u64) -> bool {
    exists|i: int|
        0 <= i < sessions.len() && (#[trigger] sessions[i]).workspace_handle == workspace_handle
            && !is_terminal(sessions[i].state)
}

/// The workspace of `session` can be released at time `now`: the session has
/// ended, it is older than the retention window, and no session that has not
/// ended works in the same workspace.
pub open spec fn reclaimable(
    session: Session,
    sessions: Seq<Session>,
    now: u64,
    retention_secs: u64,
) -> bool {
    &&& is_terminal(session.state)
    &&& elapsed_secs(now, session.started_at) > retention_secs
    &&& !workspace_in_use(sessions, session.workspace_handle)
}

/// The test that picks, among `sessions`, those whose workspace can be released.
pub open spec fn reclaims(sessions: Seq<Session>, now: u64, retention_secs: u64) -> spec_fn(
    Session,
) -> bool {
    |s: Session| reclaimable(s, sessions, now, retention_secs)
}

/// The test that picks, among `sessions`, those that a cleanup keeps.
pub open spec fn retains(sessions: Seq<Session>, now: u64, retention_secs: u64) -> spec_fn(
    Session,
) -> bool {
    |s: Session| !reclaimable(s, sessions, now, retention_secs)
}

/// The sessions that a cleanup at time `now` removes, in their order.
pub open spec fn reclaimed(sessions: Seq<Session>, now: u64, retention_secs: u64) -> Seq<Session> {
    sessions.filter(reclaims(sessions, now, retention_secs))
}

/// The sessions that a cleanup at time `now` keeps, in their order.
pub open spec fn retained(sessions: Seq<Session>, now: u64, retention_secs: u64) -> Seq<Session> {
    sessions.filter(retains(sessions, now, retention_secs))
}

/// The workspaces of `sessions`, in order.
pub open spec fn workspaces_of(sessions: Seq<Session>) -> Seq<u64> {
    sessions.map_values(|s: Session| s.workspace_handle)
}

/// The members of `handles`, each once, in the order in which they first occur.
pub open spec fn each_once(handles: Seq<u64>) -> Seq<u64>
    decreases handles.len(),
{
    if handles.len() == 0 {
        Seq::empty()
    } else {
        let earlier = each_once(handles.drop_last());
        if earlier.contains(handles.last()) {
            earlier
        } else {
            earlier.push(handles.last())
        }
    }
}

/// The workspaces that a cleanup at time `now` releases: those of the
/// sessions that it removes, each once.
pub open spec fn released_workspaces(
    sessions: Seq<Session>,
    now: u64,
    retention_secs: u64,
) -> Seq<u64> {
    each_once(workspaces_of(reclaimed(sessions, now, retention_secs)))
}

/// `sessions` with `change` applied to the session named `handle`.
pub open spec fn with_session_changed(
    sessions: Seq<Session>,
    handle: SessionHandle,
    change: spec_fn(Session) -> Session,
) -> Seq<Session> {
    Seq::new(
        sessions.len(),
        |i: int|
            if sessions[i].handle == handle {
                change(sessions[i])
            } else {
                sessions[i]
            },
    )
}

/// No two sessions in `sessions` have the same handle, and every handle is
/// below `issued`.
pub open spec fn handles_in_order(sessions: Seq<Session>, issued: u64) -> bool {
    &&& forall|i: int| 0 <= i < sessions.len() ==> (#[trigger] sessions[i]).handle.0 < issued
    &&& forall|i: int, j: int|
        0 <= i < j < sessions.len() ==> (#[trigger] sessions[i]).handle != (
        #[trigger] sessions[j]).handle
}

/// The session that a spawn at time `now` registers.
pub open spec fn requested_session(
    issued: u64,
    agent_kind: Agent,
    with_context: bool,
    issue_number: u64,
    workspace_handle: u64,
    now: u64,
    limits: SessionLimits,
) -> Session {
    Session {
        handle: SessionHandle(issued),
        agent_kind,
        with_context,
        issue_number,
        workspace_handle,
        started_at: now,
        budget_remaining: limits.session_budget,
        state: SessionState::Requested,
    }
}

/// Owns the sessions: registers spawns, follows their lifecycle, enforces
/// their limits and releases their workspaces.
pub struct SessionOrchestrator {
    sessions: Vec<Session>,
    issued: u64,
    limits: SessionLimits,
}

impl View for SessionOrchestrator {
    type V = Seq<Session>;

    closed spec fn view(&self) -> Seq<Session> {
        self.sessions@
    }
}

impl SessionOrchestrator {
    /// The number of handles handed out so far; the next handle has this number.
    pub closed spec fn issued(&self) -> u64 {
        self.issued
    }

    /// The limits that this orchestrator enforces.
    pub closed spec fn limits(&self) -> SessionLimits {
        self.limits
    }

    /// The orchestrator's invariant: handles are unique and were handed out
    /// by this orchestrator.
    pub open spec fn wf(&self) -> bool {
        handles_in_order(self@, self.issued())
    }

    /// An orchestrator without sessions.
    pub fn new(limits: SessionLimits) -> (orchestrator: SessionOrchestrator)
        ensures
            orchestrator@ == Seq::<Session>::empty(),
            orchestrator.issued() == 0,
            orchestrator.limits() == limits,
            orchestrator.wf(),
    {
        SessionOrchestrator { sessions: Vec::new(), issued: 0, limits }
    }

    /// The number of sessions that the orchestrator knows.
    pub fn len(&self) -> (n: usize)
        ensures
            n == self@.len(),
    {
        self.sessions.len()
    }

    /// Where the session named `handle` stands, if it is known.
    fn find(&self, handle: SessionHandle) -> (found: Option<usize>)
        ensures
            match found {
                Some(i) => i < self@.len() && self@[i as int].handle == handle,
                None => !known(self@, handle),
            },
    {
        let mut i: usize = 0;
        while i < self.sessions.len()
            invariant
                i <= self.sessions@.len(),
                forall|j: int| 0 <= j < i ==> self.sessions@[j].handle != handle,
            decreases self.sessions@.len() - i,
        {
            if self.sessions[i].handle == handle {
                return Some(i);
            }
            i += 1;
        }
        None
    }

    /// The session named `handle`, if it is known.
    pub fn session(&self, handle: SessionHandle) -> (found: Option<Session>)
        requires
            self.wf(),
        ensures
            found is Some <==> known(self@, handle),
            found is Some ==> found->0 == session_named(self@, handle),
    {
        match self.find(handle) {
            Some(i) => {
                Some(self.sessions[i])
            },
            None => None,
        }
    }

    /// Registers a session in state `Requested` and hands out its handle.
    fn request(
        &mut self,
        agent_kind: Agent,
        with_context: bool,
        issue_number: u64,
        workspace_handle: u64,
        now: u64,
    ) -> (handle: Option<SessionHandle>)
        requires
            old(self).wf(),
        ensures
            final(self).wf(),
            final(self).limits() == old(self).limits(),
            handle is Some <==> old(self).issued() < u64::MAX,
            handle is Some ==> {
                &&& handle->0 == SessionHandle(old(self).issued())
                &&& final(self).issued() == old(self).issued() + 1
                &&& final(self)@ == old(self)@.push(
                    requested_session(
                        old(self).issued(),
                        agent_kind,
                        with_context,
                        issue_number,
                        workspace_handle,
                        now,
                        old(self).limits(),
                    ),
                )
            },
            handle is None ==> final(self)@ == old(self)@ && final(self).issued() == old(
                self,
            ).issued(),
    {
        if self.issued == u64::MAX {
            return None;
        }
        let handle = SessionHandle(self.issued);
        self.sessions.push(
            Session {
                handle,
                agent_kind,
                with_context,
                issue_number,
                workspace_handle,
                started_at: now,
                budget_remaining: self.limits.session_budget,
                state: SessionState::Requested,
            },
        );
        self.issued = self.issued + 1;
        Some(handle)
    }

    /// Registers the request for the first planner session on `issue_number`,
    /// which starts from the issue alone.
    ///
    /// The session starts in state `Requested` with the full budget, and its
    /// handle is the next unused one. Only when all handles are used up is
    /// nothing registered.
    pub fn spawn_planner(&mut self, issue_number: u64, workspace_handle: u64, now: u64) -> (handle:
        Option<SessionHandle>)
        requires
            old(self).wf(),
        ensures
            final(self).wf(),
            final(self).limits() == old(self).limits(),
            handle is Some <==> old(self).issued() < u64::MAX,
            handle is Some ==> {
                &&& handle->0 == SessionHandle(old(self).issued())
                &&& final(self).issued() == old(self).issued() + 1
                &&& final(self)@ == old(self)@.push(
                    requested_session(
                        old(self).issued(),
                        Agent::Planner,
                        false,
                        issue_number,
                        workspace_handle,
                        now,
                        old(self).limits(),
                    ),
                )
            },
            handle is None ==> final(self)@ == old(self)@ && final(self).issued() == old(
                self,
            ).issued(),
    {
        self.request(Agent::Planner, false, issue_number, workspace_handle, now)
    }

    /// Registers the request for a planner session that is to plan again for
    /// `issue_number`, with the conversation so far.
    ///
    /// The session starts in state `Requested` with the full budget, and its
    /// handle is the next unused one. Only when all handles are used up is
    /// nothing registered.
    pub fn spawn_planner_with_context(
        &mut self,
        issue_number: u64,
        workspace_handle: u64,
        now: u64,
    ) -> (handle: Option<SessionHandle>)
        requires
            old(self).wf(),
        ensures
            final(self).wf(),
            final(self).limits() == old(self).limits(),
            handle is Some <==> old(self).issued() < u64::MAX,
            handle is Some ==> {
                &&& handle->0 == SessionHandle(old(self).issued())
                &&& final(self).issued() == old(self).issued() + 1
                &&& final(self)@ == old(self)@.push(
                    requested_session(
                        old(self).issued(),
                        Agent::Planner,
                        true,
                        issue_number,
                        workspace_handle,
                        now,
                        old(self).limits(),
                    ),
                )
            },
            handle is None ==> final(self)@ == old(self)@ && final(self).issued() == old(
                self,
            ).issued(),
    {
        self.request(Agent::Planner, true, issue_number, workspace_handle, now)
    }

    /// Registers the request for an executor session on `issue_number`,
    /// which works with the conversation so far.
    ///
    /// The session starts in state `Requested` with the full budget, and its
    /// handle is the next unused one. Only when all handles are used up is
    /// nothing registered.
    pub fn spawn_executor(&mut self, issue_number: u64, workspace_handle: u64, now: u64) -> (handle:
        Option<SessionHandle>)
        requires
            old(self).wf(),
        ensures
            final(self).wf(),
            final(self).limits() == old(self).limits(),
            handle is Some <==> old(self).issued() < u64::MAX,
            handle is Some ==> {
                &&& handle->0 == SessionHandle(old(self).issued())
                &&& final(self).issued() == old(self).issued() + 1
                &&& final(self)@ == old(self)@.push(
                    requested_session(
                        old(self).issued(),
                        Agent::Executor,
                        true,
                        issue_number,
                        workspace_handle,
                        now,
                        old(self).limits(),
                    ),
                )
            },
            handle is None ==> final(self)@ == old(self)@ && final(self).issued() == old(
                self,
            ).issued(),
    {
        self.request(Agent::Executor, true, issue_number, workspace_handle, now)
    }

    /// Registers the request for the session that a routed conversation asks
    /// for: a planner with the conversation so far, or an executor.
    pub fn spawn_routed(
        &mut self,
        agent: Agent,
        issue_number: u64,
        workspace_handle: u64,
        now: u64,
    ) -> (handle: Option<SessionHandle>)
        requires
            old(self).wf(),
        ensures
            final(self).wf(),
            final(self).limits() == old(self).limits(),
            handle is Some <==> old(self).issued() < u64::MAX,
            handle is Some ==> {
                &&& handle->0 == SessionHandle(old(self).issued())
                &&& final(self).issued() == old(self).issued() + 1
                &&& final(self)@ == old(self)@.push(
                    requested_session(
                        old(self).issued(),
                        agent,
                        true,
                        issue_number,
                        workspace_handle,
                        now,
                        old(self).limits(),
                    ),
                )
            },
            handle is None ==> final(self)@ == old(self)@ && final(self).issued() == old(
                self,
            ).issued(),
    {
        match agent {
            Agent::Planner => self.spawn_planner_with_context(issue_number, workspace_handle, now),
            Agent::Executor => self.spawn_executor(issue_number, workspace_handle, now),
        }
    }

    /// Applies `event` to the session named `handle`, by the lifecycle. An
    /// unknown handle changes nothing.
    pub fn on_event(&mut self, handle: SessionHandle, event: SessionEvent)
        requires
            old(self).wf(),
        ensures
            final(self).wf(),
            final(self).issued() == old(self).issued(),
            final(self).limits() == old(self).limits(),
            final(self)@ == with_session_changed(
                old(self)@,
                handle,
                |s: Session| session_after(s, event),
            ),
    {
        match self.find(handle) {
            Some(i) => {
                let session = self.sessions[i];
                self.sessions.set(i, Session { state: session.state.on_event(event), ..session });
            },
            None => {},
        }
    }

    /// Takes `spent` off the budget of the session named `handle`, as the
    /// runner reports it. The budget stops at zero; a session that is not
    /// running, and an unknown handle, change nothing.
    pub fn record_usage(&mut self, handle: SessionHandle, spent: u64)
        requires
            old(self).wf(),
        ensures
            final(self).wf(),
            final(self).issued() == old(self).issued(),
            final(self).limits() == old(self).limits(),
            final(self)@ == with_session_changed(
                old(self)@,
                handle,
                |s: Session| session_charged(s, spent),
            ),
    {
        match self.find(handle) {
            Some(i) => {
                let session = self.sessions[i];
                if session.state == SessionState::Running {
                    let left = if spent >= session.budget_remaining {
                        0
                    } else {
                        session.budget_remaining - spent
                    };
                    self.sessions.set(i, Session { budget_remaining: left, ..session });
                }
            },
            None => {},
        }
    }

    /// The monitoring pass at time `now`.
    ///
    /// Every running session that has no budget left, or has run longer than
    /// the time limit, becomes `Killed`, and an order to stop it is returned;
    /// the orders come in the order of the sessions. All other sessions stay
    /// as they are.
    pub fn monitor_sessions(&mut self, now: u64) -> (orders: Vec<Termination>)
        requires
            old(self).wf(),
        ensures
            final(self).wf(),
            final(self).issued() == old(self).issued(),
            final(self).limits() == old(self).limits(),
            final(self)@ == old(self)@.map_values(
                |s: Session| monitored(s, now, old(self).limits()),
            ),
            orders@ == terminations(old(self)@, now, old(self).limits()),
    {
        let mut orders: Vec<Termination> = Vec::new();
        let limits = self.limits;
        let ghost before = self@;
        let mut i: usize = 0;
        while i < self.sessions.len()
            invariant
                i <= self.sessions@.len(),
                self.sessions@.len() == before.len(),
                self.issued == old(self).issued,
                self.limits == limits,
                limits == old(self).limits,
                before == old(self)@,
                forall|j: int|
                    0 <= j < i ==> self.sessions@[j] == monitored(before[j], now, limits),
                forall|j: int| i <= j < before.len() ==> self.sessions@[j] == before[j],
                orders@ == terminations(before.take(i as int), now, limits),
            decreases self.sessions@.len() - i,
        {
            let session = self.sessions[i];
            proof {
                reveal(Seq::filter);
                assert(before.take(i + 1).drop_last() =~= before.take(i as int));
            }
            match session.overrun(now, &limits) {
                Some(reason) => {
                    let killed = Session { state: session.state.on_event(reason), ..session };
                    self.sessions.set(i, killed);
                    orders.push(
                        Termination {
                            handle: session.handle,
                            issue_number: session.issue_number,
                            workspace_handle: session.workspace_handle,
                            reason,
                        },
                    );
                },
                None => {},
            }
            i += 1;
        }
        assert(before.take(i as int) =~= before);
        orders
    }
}

/// Whether `handle` is among `handles`.
fn holds(handles: &Vec<u64>, handle: u64) -> (found: bool)
    ensures
        found == handles@.contains(handle),
{
    let mut i: usize = 0;
    while i < handles.len()
        invariant
            i <= handles@.len(),
            forall|j: int| 0 <= j < i ==> handles@[j] != handle,
        decreases handles@.len() - i,
    {
        if handles[i] == handle {
            return true;
        }
        i += 1;
    }
    false
}

impl SessionOrchestrator {
    /// Whether a session that has not ended works in `workspace_handle`.
    pub fn workspace_in_use(&self, workspace_handle: u64) -> (busy: bool)
        ensures
            busy == workspace_in_use(self@, workspace_handle),
    {
        let mut i: usize = 0;
        while i < self.sessions.len()
            invariant
                i <= self.sessions@.len(),
                forall|j: int|
                    0 <= j < i ==> !(self.sessions@[j].workspace_handle == workspace_handle
                        && !is_terminal(self.sessions@[j].state)),
            decreases self.sessions@.len() - i,
        {
            if self.sessions[i].workspace_handle == workspace_handle
                && !self.sessions[i].state.is_terminal() {
                return true;
            }
            i += 1;
        }
        false
    }

    /// Releases the workspaces of old sessions, at time `now`.
    ///
    /// A session is removed, and its workspace returned for release, when it
    /// has ended, is older than `retention_secs`, and no session that has not
    /// ended works in the same workspace. The workspaces come in the order of
    /// their sessions, each once; all other sessions stay, in their order.
    pub fn cleanup_old_worktrees(&mut self, now: u64, retention_secs: u64) -> (released: Vec<u64>)
        requires
            old(self).wf(),
        ensures
            final(self).wf(),
            final(self).issued() == old(self).issued(),
            final(self).limits() == old(self).limits(),
            final(self)@ == retained(old(self)@, now, retention_secs),
            released@ == released_workspaces(old(self)@, now, retention_secs),
    {
        let mut kept: Vec<Session> = Vec::new();
        let mut released: Vec<u64> = Vec::new();
        let ghost before = self@;
        let ghost gone = reclaims(before, now, retention_secs);
        let ghost stay = retains(before, now, retention_secs);
        let mut i: usize = 0;
        while i < self.sessions.len()
            invariant
                i <= before.len(),
                self.sessions@ == before,
                self.issued == old(self).issued,
                self.limits == old(self).limits,
                handles_in_order(before, self.issued),
                gone == reclaims(before, now, retention_secs),
                stay == retains(before, now, retention_secs),
                kept@ == before.take(i as int).filter(stay),
                released@ == each_once(workspaces_of(before.take(i as int).filter(gone))),
                handles_in_order(kept@, self.issued),
                forall|a: int|
                    0 <= a < kept@.len() ==> exists|j: int|
                        0 <= j < i && before[j].handle == (#[trigger] kept@[a]).handle,
            decreases before.len() - i,
        {
            let session = self.sessions[i];
            proof {
                reveal(Seq::filter);
                assert(before.take(i + 1).drop_last() =~= before.take(i as int));
            }
            let expired = session.state.is_terminal() && crate::activity::elapsed(
                now,
                session.started_at,
            ) > retention_secs;
            if expired && !self.workspace_in_use(session.workspace_handle) {
                proof {
                    let gone_so_far = workspaces_of(before.take(i as int).filter(gone));
                    assert(workspaces_of(before.take(i + 1).filter(gone)) =~= gone_so_far.push(
                        session.workspace_handle,
                    ));
                    assert(gone_so_far.push(session.workspace_handle).drop_last() =~= gone_so_far);
                }
                if !holds(&released, session.workspace_handle) {
                    released.push(session.workspace_handle);
                }
            } else {
                kept.push(session);
            }
            i += 1;
        }
        assert(before.take(i as int) =~= before);
        self.sessions = kept;
        released
    }
}

/// `after` is the session `before` at a later time: the same handle, kind,
/// issue, workspace and start, with no more budget than before, and in the
/// same state if that state was terminal.
pub open spec fn same_session(before: Session, after: Session) -> bool {
    &&& after.handle == before.handle
    &&& after.agent_kind == before.agent_kind
    &&& after.with_context == before.with_context
    &&& after.issue_number == before.issue_number
    &&& after.workspace_handle == before.workspace_handle
    &&& after.started_at == before.started_at
    &&& after.budget_remaining <= before.budget_remaining
    &&& is_terminal(before.state) ==> after.state == before.state
}

/// What a session is stays fixed from its spawn: an event, a charge and a
/// monitoring pass change nothing but its state and its budget, the budget
/// only shrinks, and a session that has ended stays as it ended.
pub proof fn lemma_sessions_keep_their_identity(
    session: Session,
    event: SessionEvent,
    spent: u64,
    now: u64,
    limits: SessionLimits,
)
    ensures
        same_session(session, session_after(session, event)),
        same_session(session, session_charged(session, spent)),
        same_session(session, monitored(session, now, limits)),
{
}

/// The monitoring pass kills a session only if it was running and had used up
/// its budget or its time. A session that has ended is left as it is, and
/// nothing but the state of a session ever changes.
pub proof fn lemma_monitoring_kills_only_overrun_sessions(
    session: Session,
    now: u64,
    limits: SessionLimits,
)
    ensures
        monitored(session, now, limits) == (Session {
            state: monitored(session, now, limits).state,
            ..session
        }),
        is_terminal(session.state) ==> monitored(session, now, limits) == session,
        monitored(session, now, limits).state != session.state ==> {
            &&& session.state == SessionState::Running
            &&& monitored(session, now, limits).state == SessionState::Killed
            &&& (session.budget_remaining == 0 || elapsed_secs(now, session.started_at)
                > limits.max_duration_secs)
        },
        session.state == SessionState::Running && (session.budget_remaining == 0 || elapsed_secs(
            now,
            session.started_at,
        ) > limits.max_duration_secs) ==> monitored(session, now, limits).state
            == SessionState::Killed,
{
}

/// Cleanup never touches work in progress: every session that it removes has
/// ended and shares its workspace with no session that has not ended, and
/// every session that has not ended is kept.
pub proof fn lemma_cleanup_spares_work_in_progress(
    sessions: Seq<Session>,
    now: u64,
    retention_secs: u64,
)
    ensures
        forall|k: int|
            0 <= k < reclaimed(sessions, now, retention_secs).len() ==> {
                let gone = #[trigger] reclaimed(sessions, now, retention_secs)[k];
                &&& sessions.contains(gone)
                &&& is_terminal(gone.state)
                &&& elapsed_secs(now, gone.started_at) > retention_secs
                &&& !workspace_in_use(sessions, gone.workspace_handle)
            },
        forall|i: int|
            0 <= i < sessions.len() && !is_terminal((#[trigger] sessions[i]).state) ==> retained(
                sessions,
                now,
                retention_secs,
            ).contains(sessions[i]),
{
    let gone = reclaims(sessions, now, retention_secs);
    assert forall|k: int| 0 <= k < sessions.filter(gone).len() implies {
        let s = #[trigger] sessions.filter(gone)[k];
        sessions.contains(s) && gone(s)
    } by {
        sessions.lemma_filter_contains_rev(gone, sessions.filter(gone)[k]);
    }
}

/// `each_once` keeps the members of a sequence and repeats none.
pub proof fn lemma_each_once(handles: Seq<u64>)
    ensures
        each_once(handles).no_duplicates(),
        forall|handle: u64| each_once(handles).contains(handle) <==> handles.contains(handle),
    decreases handles.len(),
{
    if handles.len() > 0 {
        let shorter = handles.drop_last();
        let earlier = each_once(shorter);
        lemma_each_once(shorter);
        assert forall|handle: u64| each_once(handles).contains(handle) <==> handles.contains(
            handle,
        ) by {
            if handles.contains(handle) {
                let k = choose|k: int| 0 <= k < handles.len() && handles[k] == handle;
                if k < shorter.len() {
                    assert(shorter[k] == handle);
                }
            }
            if shorter.contains(handle) {
                let k = choose|k: int| 0 <= k < shorter.len() && shorter[k] == handle;
                assert(handles[k] == handle);
            }
            if !earlier.contains(handles.last()) {
                let grown = earlier.push(handles.last());
                assert(grown[earlier.len() as int] == handles.last());
                if earlier.contains(handle) {
                    let k = choose|k: int| 0 <= k < earlier.len() && earlier[k] == handle;
                    assert(grown[k] == handle);
                }
            }
        }
    }
}

/// A cleanup releases no workspace twice, and every workspace that it
/// releases is the workspace of a session that it removes, so that no session
/// that has not ended works in it.
pub proof fn lemma_released_workspaces_are_free(
    sessions: Seq<Session>,
    now: u64,
    retention_secs: u64,
)
    ensures
        released_workspaces(sessions, now, retention_secs).no_duplicates(),
        forall|k: int|
            0 <= k < released_workspaces(sessions, now, retention_secs).len()
                ==> !workspace_in_use(
                sessions,
                #[trigger] released_workspaces(sessions, now, retention_secs)[k],
            ),
{
    let gone = reclaimed(sessions, now, retention_secs);
    let released = released_workspaces(sessions, now, retention_secs);
    lemma_each_once(workspaces_of(gone));
    lemma_cleanup_spares_work_in_progress(sessions, now, retention_secs);
    assert forall|k: int| 0 <= k < released.len() implies !workspace_in_use(
        sessions,
        #[trigger] released[k],
    ) by {
        assert(released.contains(released[k]));
        assert(workspaces_of(gone).contains(released[k]));
        let j = choose|j: int|
            0 <= j < workspaces_of(gone).len() && workspaces_of(gone)[j] == released[k];
        assert(gone[j].workspace_handle == released[k]);
    }
}

} // verus!
