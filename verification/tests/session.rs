use automation_core::router::Agent;
use automation_core::session::{
    Session, SessionEvent, SessionHandle, SessionLimits, SessionOrchestrator, SessionState,
};

fn limits() -> SessionLimits {
    SessionLimits { session_budget: 100, max_duration_secs: 3_600 }
}

const STATES: [SessionState; 5] = [
    SessionState::Requested,
    SessionState::Running,
    SessionState::Completed,
    SessionState::Killed,
    SessionState::Failed,
];

const EVENTS: [SessionEvent; 5] = [
    SessionEvent::SpawnSucceeded,
    SessionEvent::SpawnFailed,
    SessionEvent::Finished,
    SessionEvent::BudgetExhausted,
    SessionEvent::TimedOut,
];

fn running(orchestrator: &mut SessionOrchestrator, issue: u64, workspace: u64, now: u64) -> SessionHandle {
    let handle = orchestrator.spawn_executor(issue, workspace, now).unwrap();
    orchestrator.on_event(handle, SessionEvent::SpawnSucceeded);
    handle
}

#[test]
fn lifecycle_edges() {
    let requested = SessionState::Requested;
    let running = SessionState::Running;
    assert_eq!(requested.on_event(SessionEvent::SpawnSucceeded), SessionState::Running);
    assert_eq!(requested.on_event(SessionEvent::SpawnFailed), SessionState::Failed);
    assert_eq!(running.on_event(SessionEvent::Finished), SessionState::Completed);
    assert_eq!(running.on_event(SessionEvent::BudgetExhausted), SessionState::Killed);
    assert_eq!(running.on_event(SessionEvent::TimedOut), SessionState::Killed);
    assert_eq!(requested.on_event(SessionEvent::Finished), SessionState::Requested);
    assert_eq!(requested.on_event(SessionEvent::BudgetExhausted), SessionState::Requested);
    assert_eq!(requested.on_event(SessionEvent::TimedOut), SessionState::Requested);
    assert_eq!(running.on_event(SessionEvent::SpawnSucceeded), SessionState::Running);
    assert_eq!(running.on_event(SessionEvent::SpawnFailed), SessionState::Running);
}

#[test]
fn terminal_states_are_sticky() {
    for state in STATES {
        let terminal = matches!(
            state,
            SessionState::Completed | SessionState::Killed | SessionState::Failed
        );
        assert_eq!(state.is_terminal(), terminal);
        if terminal {
            for event in EVENTS {
                assert_eq!(state.on_event(event), state);
            }
        }
    }
}

#[test]
fn spawn_registers_a_requested_session() {
    let mut orchestrator = SessionOrchestrator::new(limits());
    let handle = orchestrator.spawn_planner(42, 7, 1_000).unwrap();
    assert_eq!(handle, SessionHandle(0));
    let session = orchestrator.session(handle).unwrap();
    assert_eq!(session.handle, handle);
    assert_eq!(session.agent_kind, Agent::Planner);
    assert!(!session.with_context);
    assert_eq!(session.issue_number, 42);
    assert_eq!(session.workspace_handle, 7);
    assert_eq!(session.started_at, 1_000);
    assert_eq!(session.budget_remaining, 100);
    assert_eq!(session.state, SessionState::Requested);
}

#[test]
fn handles_are_handed_out_in_order() {
    let mut orchestrator = SessionOrchestrator::new(limits());
    let a = orchestrator.spawn_planner(1, 10, 0).unwrap();
    let b = orchestrator.spawn_executor(1, 10, 1).unwrap();
    let c = orchestrator.spawn_planner_with_context(2, 11, 2).unwrap();
    assert_eq!((a, b, c), (SessionHandle(0), SessionHandle(1), SessionHandle(2)));
    assert_eq!(orchestrator.len(), 3);
    assert_eq!(orchestrator.session(b).unwrap().agent_kind, Agent::Executor);
    assert!(orchestrator.session(b).unwrap().with_context);
    assert_eq!(orchestrator.session(c).unwrap().agent_kind, Agent::Planner);
    assert!(orchestrator.session(c).unwrap().with_context);
    assert!(orchestrator.session(SessionHandle(3)).is_none());
}

#[test]
fn events_follow_the_lifecycle() {
    let mut orchestrator = SessionOrchestrator::new(limits());
    let ok = orchestrator.spawn_planner(1, 10, 0).unwrap();
    let bad = orchestrator.spawn_planner(2, 11, 0).unwrap();
    orchestrator.on_event(ok, SessionEvent::SpawnSucceeded);
    orchestrator.on_event(bad, SessionEvent::SpawnFailed);
    assert_eq!(orchestrator.session(ok).unwrap().state, SessionState::Running);
    assert_eq!(orchestrator.session(bad).unwrap().state, SessionState::Failed);
    orchestrator.on_event(bad, SessionEvent::SpawnSucceeded);
    assert_eq!(orchestrator.session(bad).unwrap().state, SessionState::Failed);
    orchestrator.on_event(ok, SessionEvent::Finished);
    assert_eq!(orchestrator.session(ok).unwrap().state, SessionState::Completed);
    orchestrator.on_event(SessionHandle(99), SessionEvent::Finished);
    assert_eq!(orchestrator.len(), 2);
}

#[test]
fn usage_is_charged_to_running_sessions_down_to_zero() {
    let mut orchestrator = SessionOrchestrator::new(limits());
    let waiting = orchestrator.spawn_planner(1, 10, 0).unwrap();
    let busy = running(&mut orchestrator, 2, 11, 0);
    orchestrator.record_usage(waiting, 30);
    orchestrator.record_usage(busy, 30);
    assert_eq!(orchestrator.session(waiting).unwrap().budget_remaining, 100);
    assert_eq!(orchestrator.session(busy).unwrap().budget_remaining, 70);
    orchestrator.record_usage(busy, 70);
    assert_eq!(orchestrator.session(busy).unwrap().budget_remaining, 0);
    orchestrator.record_usage(busy, u64::MAX);
    assert_eq!(orchestrator.session(busy).unwrap().budget_remaining, 0);
}

#[test]
fn overrun_names_the_reason() {
    let session = Session {
        handle: SessionHandle(0),
        agent_kind: Agent::Executor,
        with_context: true,
        issue_number: 1,
        workspace_handle: 1,
        started_at: 1_000,
        budget_remaining: 5,
        state: SessionState::Running,
    };
    let l = limits();
    assert_eq!(session.overrun(1_000, &l), None);
    assert_eq!(session.overrun(4_600, &l), None);
    assert_eq!(session.overrun(4_601, &l), Some(SessionEvent::TimedOut));
    assert_eq!(session.overrun(0, &l), None);
    let broke = Session { budget_remaining: 0, ..session };
    assert_eq!(broke.overrun(1_000, &l), Some(SessionEvent::BudgetExhausted));
    assert_eq!(broke.overrun(9_999, &l), Some(SessionEvent::BudgetExhausted));
    let waiting = Session { state: SessionState::Requested, ..broke };
    assert_eq!(waiting.overrun(9_999, &l), None);
    let done = Session { state: SessionState::Completed, ..broke };
    assert_eq!(done.overrun(9_999, &l), None);
}

#[test]
fn monitoring_kills_overrun_sessions_only() {
    let mut orchestrator = SessionOrchestrator::new(limits());
    let old = running(&mut orchestrator, 1, 10, 0);
    let broke = running(&mut orchestrator, 2, 11, 5_000);
    let fine = running(&mut orchestrator, 3, 12, 5_000);
    let waiting = orchestrator.spawn_planner(4, 13, 0).unwrap();
    orchestrator.record_usage(broke, 100);

    let orders = orchestrator.monitor_sessions(5_100);
    assert_eq!(orders.len(), 2);
    assert_eq!(orders[0].handle, old);
    assert_eq!(orders[0].issue_number, 1);
    assert_eq!(orders[0].workspace_handle, 10);
    assert_eq!(orders[0].reason, SessionEvent::TimedOut);
    assert_eq!(orders[1].handle, broke);
    assert_eq!(orders[1].reason, SessionEvent::BudgetExhausted);

    assert_eq!(orchestrator.session(old).unwrap().state, SessionState::Killed);
    assert_eq!(orchestrator.session(broke).unwrap().state, SessionState::Killed);
    assert_eq!(orchestrator.session(fine).unwrap().state, SessionState::Running);
    assert_eq!(orchestrator.session(waiting).unwrap().state, SessionState::Requested);

    assert!(orchestrator.monitor_sessions(5_100).is_empty());
    assert!(orchestrator.monitor_sessions(8_600).is_empty());
    let orders = orchestrator.monitor_sessions(8_601);
    assert_eq!(orders.len(), 1);
    assert_eq!(orders[0].handle, fine);
}

#[test]
fn cleanup_releases_old_ended_sessions() {
    let mut orchestrator = SessionOrchestrator::new(limits());
    let done = running(&mut orchestrator, 1, 10, 0);
    let failed = orchestrator.spawn_planner(2, 11, 0).unwrap();
    let young = running(&mut orchestrator, 3, 12, 900);
    let busy = running(&mut orchestrator, 4, 13, 0);
    orchestrator.on_event(done, SessionEvent::Finished);
    orchestrator.on_event(failed, SessionEvent::SpawnFailed);
    orchestrator.on_event(young, SessionEvent::Finished);

    let released = orchestrator.cleanup_old_worktrees(1_000, 500);
    assert_eq!(released, vec![10, 11]);
    assert_eq!(orchestrator.len(), 2);
    assert!(orchestrator.session(done).is_none());
    assert!(orchestrator.session(failed).is_none());
    assert!(orchestrator.session(young).is_some());
    assert!(orchestrator.session(busy).is_some());

    assert!(orchestrator.cleanup_old_worktrees(1_000, 500).is_empty());
    assert!(orchestrator.cleanup_old_worktrees(1_400, 500).is_empty());
    assert_eq!(orchestrator.cleanup_old_worktrees(1_401, 500), vec![12]);
}

#[test]
fn cleanup_spares_a_workspace_that_is_in_use() {
    let mut orchestrator = SessionOrchestrator::new(limits());
    let planner = running(&mut orchestrator, 1, 10, 0);
    orchestrator.on_event(planner, SessionEvent::Finished);
    let executor = running(&mut orchestrator, 1, 10, 15);
    assert!(orchestrator.workspace_in_use(10));
    assert!(!orchestrator.workspace_in_use(11));

    assert!(orchestrator.cleanup_old_worktrees(10_000, 100).is_empty());
    assert_eq!(orchestrator.len(), 2);

    orchestrator.on_event(executor, SessionEvent::Finished);
    assert!(!orchestrator.workspace_in_use(10));
    assert_eq!(orchestrator.cleanup_old_worktrees(10_000, 100), vec![10]);
    assert_eq!(orchestrator.len(), 0);
}

#[test]
fn handles_are_not_reused_after_cleanup() {
    let mut orchestrator = SessionOrchestrator::new(limits());
    let first = orchestrator.spawn_planner(1, 10, 0).unwrap();
    orchestrator.on_event(first, SessionEvent::SpawnFailed);
    assert_eq!(orchestrator.cleanup_old_worktrees(100, 10), vec![10]);
    let second = orchestrator.spawn_planner(1, 10, 200).unwrap();
    assert_eq!(second, SessionHandle(1));
}

#[test]
fn routed_spawns_carry_the_conversation() {
    let mut orchestrator = SessionOrchestrator::new(limits());
    let planner = orchestrator.spawn_routed(Agent::Planner, 5, 50, 10).unwrap();
    let executor = orchestrator.spawn_routed(Agent::Executor, 6, 60, 11).unwrap();
    let planner = orchestrator.session(planner).unwrap();
    let executor = orchestrator.session(executor).unwrap();
    assert_eq!(planner.agent_kind, Agent::Planner);
    assert!(planner.with_context);
    assert_eq!(planner.issue_number, 5);
    assert_eq!(planner.workspace_handle, 50);
    assert_eq!(planner.started_at, 10);
    assert_eq!(planner.state, SessionState::Requested);
    assert_eq!(executor.agent_kind, Agent::Executor);
    assert!(executor.with_context);
    assert_eq!(executor.handle, SessionHandle(1));
}

#[test]
fn cleanup_releases_each_workspace_once() {
    let mut orchestrator = SessionOrchestrator::new(limits());
    for (issue, workspace) in [(1, 10), (2, 20), (1, 10), (3, 30), (2, 20), (1, 10)] {
        let handle = orchestrator.spawn_executor(issue, workspace, 0).unwrap();
        orchestrator.on_event(handle, SessionEvent::SpawnFailed);
    }
    assert_eq!(orchestrator.cleanup_old_worktrees(1_000, 10), vec![10, 20, 30]);
    assert_eq!(orchestrator.len(), 0);
}
