use automation_core::activity::{ActivityState, DaemonConfig};
use automation_core::handoff::{Handoff, HandoffAction};
use automation_core::poller::{poll_conversation, poll_pr_feedback};
use automation_core::router::Agent;
use automation_core::scheduler::{Phase, SchedulerState};
use automation_core::session::{SessionEvent, SessionLimits, SessionOrchestrator, SessionState};
use automation_core::store::StateStore;
use automation_core::tracker::{Comment, Issue, TrackerError};
use automation_core::trigger::scan;

/// What a scripted tracker answers in one cycle.
struct Answers {
    labeled: Result<Vec<u64>, String>,
    comments: Vec<(u64, Result<Vec<(u64, String)>, String>)>,
    pr_comments: Vec<(u64, Vec<(u64, String)>)>,
}

/// A daemon whose collaborators are played by the test.
struct Rig {
    config: DaemonConfig,
    store: StateStore,
    orchestrator: SessionOrchestrator,
    scheduler: SchedulerState,
    clock: u64,
    log: Vec<String>,
    failing_spawns: Vec<(Agent, u64)>,
}

fn comments_of(issue: u64, wire: &[(u64, String)]) -> Vec<Comment> {
    wire.iter()
        .map(|(at, body)| Comment {
            issue_number: issue,
            author: "octocat".to_string(),
            body: body.clone(),
            created_at: *at,
        })
        .collect()
}

impl Rig {
    fn new() -> Rig {
        let config = DaemonConfig {
            poll_interval_idle_secs: 60,
            poll_interval_active_secs: 15,
            poll_interval_very_active_secs: 5,
            activity_timeout_minutes: 10,
        };
        Rig {
            config,
            store: StateStore::new(),
            orchestrator: SessionOrchestrator::new(SessionLimits {
                session_budget: 100,
                max_duration_secs: 300,
            }),
            scheduler: SchedulerState::new(0, &config),
            clock: 0,
            log: Vec::new(),
            failing_spawns: Vec::new(),
        }
    }

    fn start(&mut self, agent: Agent, issue: u64, first: bool) -> bool {
        let registered = match (agent, first) {
            (Agent::Planner, true) => self.orchestrator.spawn_planner(issue, issue, self.clock),
            _ => self.orchestrator.spawn_routed(agent, issue, issue, self.clock),
        };
        let handle = registered.unwrap();
        let fails = self.failing_spawns.contains(&(agent, issue));
        let event = if fails { SessionEvent::SpawnFailed } else { SessionEvent::SpawnSucceeded };
        self.orchestrator.on_event(handle, event);
        self.log.push(format!("spawn {:?} #{} {}", agent, issue, if fails { "failed" } else { "ok" }));
        !fails
    }

    fn cycle(&mut self, answers: Answers) -> u64 {
        assert_eq!(self.scheduler.phase, Phase::TriggerScan);
        let mut order = Vec::new();
        loop {
            order.push(self.scheduler.phase);
            match self.scheduler.phase {
                Phase::TriggerScan => {
                    let pulled: Result<Vec<Issue>, TrackerError> = match &answers.labeled {
                        Ok(numbers) => Ok(numbers
                            .iter()
                            .map(|n| Issue { number: *n, title: format!("issue {}", n) })
                            .collect()),
                        Err(message) => Err(TrackerError { message: message.clone() }),
                    };
                    for request in scan(&pulled, &mut self.store, self.clock) {
                        let (mut handoff, mut action) = Handoff::begin(request);
                        loop {
                            let ok = match action {
                                HandoffAction::SpawnPlanner { issue_number } => {
                                    self.start(Agent::Planner, issue_number, true)
                                }
                                HandoffAction::Wait { secs } => {
                                    self.clock += secs;
                                    true
                                }
                                HandoffAction::SpawnExecutor { issue_number } => {
                                    assert!(self.store.automation_exists(issue_number));
                                    self.start(Agent::Executor, issue_number, false)
                                }
                            };
                            match handoff.advance(&mut self.store, ok, self.clock) {
                                Some(next) => action = next,
                                None => break,
                            }
                        }
                        self.scheduler.observe_handoff(&handoff);
                    }
                }
                Phase::ConversationPoll => {
                    for issue in self.store.active_issues() {
                        let fetched = match answers.comments.iter().find(|(n, _)| *n == issue) {
                            Some((_, Ok(wire))) => Ok(comments_of(issue, wire)),
                            Some((_, Err(message))) => {
                                Err(TrackerError { message: message.clone() })
                            }
                            None => Ok(Vec::new()),
                        };
                        let delivery = poll_conversation(&mut self.store, issue, &fetched);
                        self.scheduler.observe_delivery(&delivery);
                        if let Some(delivery) = delivery {
                            self.start(delivery.agent, delivery.issue_number, false);
                        }
                    }
                }
                Phase::PrFeedback => {
                    for (issue, wire) in &answers.pr_comments {
                        let fetched = Ok(comments_of(*issue, wire));
                        let delivery = poll_pr_feedback(&mut self.store, *issue, &fetched);
                        self.scheduler.observe_delivery(&delivery);
                        if let Some(delivery) = delivery {
                            self.start(delivery.agent, delivery.issue_number, false);
                        }
                    }
                }
                Phase::SessionMonitoring => {
                    for order in self.orchestrator.monitor_sessions(self.clock) {
                        self.log.push(format!("kill #{} {:?}", order.issue_number, order.reason));
                    }
                }
                Phase::Cleanup => {
                    for workspace in self.orchestrator.cleanup_old_worktrees(self.clock, 1_000) {
                        self.log.push(format!("release {}", workspace));
                    }
                }
                Phase::Sleep => {
                    self.clock += self.scheduler.sleep_secs;
                }
            }
            let was_sleep = self.scheduler.phase == Phase::Sleep;
            let slept = self.scheduler.sleep_secs;
            self.scheduler.finish_phase(self.clock, &self.config);
            if was_sleep {
                assert_eq!(
                    order,
                    vec![
                        Phase::TriggerScan,
                        Phase::ConversationPoll,
                        Phase::PrFeedback,
                        Phase::SessionMonitoring,
                        Phase::Cleanup,
                        Phase::Sleep,
                    ]
                );
                return slept;
            }
        }
    }

    fn take_log(&mut self) -> Vec<String> {
        std::mem::take(&mut self.log)
    }
}

fn quiet() -> Answers {
    Answers { labeled: Ok(Vec::new()), comments: Vec::new(), pr_comments: Vec::new() }
}

#[test]
fn a_trigger_gets_one_planner_and_one_executor() {
    let mut rig = Rig::new();
    let labeled = || Answers { labeled: Ok(vec![42]), ..quiet() };

    assert_eq!(rig.cycle(labeled()), 60);
    assert_eq!(rig.take_log(), vec!["spawn Planner #42 ok", "spawn Executor #42 ok"]);
    assert_eq!(rig.scheduler.tracker.current, ActivityState::VeryActive);

    assert_eq!(rig.cycle(labeled()), 5);
    assert_eq!(rig.cycle(labeled()), 5);
    assert!(rig.take_log().is_empty());
    assert_eq!(rig.store.active_issues(), vec![42]);
}

#[test]
fn a_failed_planner_is_not_tried_again() {
    let mut rig = Rig::new();
    rig.failing_spawns.push((Agent::Planner, 42));
    let labeled = || Answers { labeled: Ok(vec![42]), ..quiet() };

    rig.cycle(labeled());
    assert_eq!(rig.take_log(), vec!["spawn Planner #42 failed"]);
    assert_eq!(rig.scheduler.tracker.current, ActivityState::Idle);
    assert!(rig.store.automation_exists(42));

    rig.failing_spawns.clear();
    rig.cycle(labeled());
    assert!(rig.take_log().is_empty());
}

#[test]
fn a_failed_executor_still_counts_as_handled() {
    let mut rig = Rig::new();
    rig.failing_spawns.push((Agent::Executor, 42));
    rig.cycle(Answers { labeled: Ok(vec![42]), ..quiet() });
    assert_eq!(rig.take_log(), vec!["spawn Planner #42 ok", "spawn Executor #42 failed"]);
    rig.cycle(Answers { labeled: Ok(vec![42]), ..quiet() });
    assert!(rig.take_log().is_empty());
}

#[test]
fn one_failing_issue_does_not_stop_the_others() {
    let mut rig = Rig::new();
    rig.failing_spawns.push((Agent::Planner, 1));
    rig.cycle(Answers { labeled: Ok(vec![1, 2]), ..quiet() });
    assert_eq!(
        rig.take_log(),
        vec!["spawn Planner #1 failed", "spawn Planner #2 ok", "spawn Executor #2 ok"]
    );

    let answers = Answers {
        comments: vec![
            (1, Err("boom".to_string())),
            (2, Ok(vec![(500, "please rethink this".to_string())])),
        ],
        ..quiet()
    };
    rig.cycle(answers);
    assert_eq!(rig.take_log(), vec!["spawn Planner #2 ok"]);
}

#[test]
fn a_failed_pull_costs_only_this_cycle() {
    let mut rig = Rig::new();
    rig.cycle(Answers { labeled: Err("rate limited".to_string()), ..quiet() });
    assert!(rig.take_log().is_empty());
    assert_eq!(rig.store.len(), 0);
    rig.cycle(Answers { labeled: Ok(vec![3]), ..quiet() });
    assert_eq!(rig.take_log(), vec!["spawn Planner #3 ok", "spawn Executor #3 ok"]);
}

#[test]
fn conversations_are_routed_and_never_replayed() {
    let mut rig = Rig::new();
    rig.cycle(Answers { labeled: Ok(vec![7]), ..quiet() });
    rig.take_log();
    rig.store.set_plan_exists(7, true);

    let talk = |comments: Vec<(u64, &str)>| Answers {
        comments: vec![(7, Ok(comments.into_iter().map(|(t, b)| (t, b.to_string())).collect()))],
        ..quiet()
    };
    rig.cycle(talk(vec![(100, "fix the typo")]));
    assert_eq!(rig.take_log(), vec!["spawn Executor #7 ok"]);
    rig.cycle(talk(vec![(100, "fix the typo")]));
    assert!(rig.take_log().is_empty());
    rig.cycle(talk(vec![(100, "fix the typo"), (130, "Let's try a different approach")]));
    assert_eq!(rig.take_log(), vec!["spawn Planner #7 ok"]);
    rig.cycle(talk(vec![(100, "fix the typo"), (130, "Let's try a different approach")]));
    assert!(rig.take_log().is_empty());
    assert_eq!(rig.store.last_comment_time(7), Some(130));
}

#[test]
fn pr_feedback_spawns_the_executor() {
    let mut rig = Rig::new();
    rig.cycle(Answers { labeled: Ok(vec![7]), ..quiet() });
    rig.take_log();
    let feedback = || Answers {
        pr_comments: vec![(7, vec![(90, "we should rethink the whole design".to_string())])],
        ..quiet()
    };
    rig.cycle(feedback());
    assert_eq!(rig.take_log(), vec!["spawn Executor #7 ok"]);
    rig.cycle(feedback());
    assert!(rig.take_log().is_empty());
}

#[test]
fn the_daemon_slows_down_when_nothing_happens() {
    let mut rig = Rig::new();
    rig.cycle(Answers { labeled: Ok(vec![7]), ..quiet() });
    let mut intervals = Vec::new();
    for _ in 0..80 {
        intervals.push(rig.cycle(quiet()));
    }
    assert_eq!(intervals[0], 5);
    assert!(intervals.contains(&15));
    assert_eq!(*intervals.last().unwrap(), 60);
    for pair in intervals.windows(2) {
        assert!(pair[0] <= pair[1]);
    }
}

#[test]
fn sessions_that_run_too_long_are_killed_and_cleaned_up() {
    let mut rig = Rig::new();
    rig.cycle(Answers { labeled: Ok(vec![7]), ..quiet() });
    rig.take_log();
    let mut log = Vec::new();
    for _ in 0..80 {
        rig.cycle(quiet());
        log.extend(rig.take_log());
    }
    assert_eq!(log, vec!["kill #7 TimedOut", "kill #7 TimedOut", "release 7"]);
    assert_eq!(rig.orchestrator.len(), 0);
    assert!(!rig.orchestrator.workspace_in_use(7));
}

#[test]
fn killed_sessions_stay_killed() {
    let mut rig = Rig::new();
    rig.cycle(Answers { labeled: Ok(vec![7]), ..quiet() });
    let handle = automation_core::session::SessionHandle(0);
    for _ in 0..40 {
        rig.cycle(quiet());
    }
    assert!(rig.clock > 300 && rig.clock < 1_000);
    assert_eq!(rig.orchestrator.session(handle).unwrap().state, SessionState::Killed);
    rig.orchestrator.on_event(handle, SessionEvent::Finished);
    rig.orchestrator.on_event(handle, SessionEvent::SpawnSucceeded);
    assert_eq!(rig.orchestrator.session(handle).unwrap().state, SessionState::Killed);
}
