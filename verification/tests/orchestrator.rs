use remipn::controller::{ConnectOperation, ControlEvent, ControlRequest, VpnError};
use remipn::orchestrator::{
    any_shared, toggle_plan, Goal, Orchestrator, Outcome, Progress, RetryPolicy, Task,
};
use remipn::vpn::{VpnManager, VpnStatus};

/// A control surface that lives in memory, with a clock that only moves when
/// something waits.
struct World {
    active: Vec<(String, Option<String>)>,
    connect_answers: Vec<Result<(), String>>,
    connect_takes_effect: bool,
    drop_at_sample: Option<u32>,
    intruder_at_sample: Option<(u32, String)>,
    connects: u32,
    disconnects: Vec<String>,
    samples: u32,
    now: u64,
    waits: Vec<u64>,
}

impl World {
    fn new() -> World {
        World {
            active: Vec::new(),
            connect_answers: Vec::new(),
            connect_takes_effect: true,
            drop_at_sample: None,
            intruder_at_sample: None,
            connects: 0,
            disconnects: Vec::new(),
            samples: 0,
            now: 0,
            waits: Vec::new(),
        }
    }

    fn connect(&mut self, mgr: &mut VpnManager, target: &str) -> Result<(), VpnError> {
        let mut op = ConnectOperation::new(target);
        let mut event = ControlEvent::Start;
        loop {
            let (next, request) = mgr.connect(op, event);
            op = next;
            event = match request {
                ControlRequest::ListActive => ControlEvent::Active(self.active.clone()),
                ControlRequest::Disconnect(name) => {
                    self.disconnects.push(name.clone());
                    self.active.retain(|e| e.0 != name);
                    ControlEvent::Actuator(Ok(()))
                }
                ControlRequest::Connect => {
                    self.connects += 1;
                    let answer = if self.connect_answers.is_empty() {
                        Ok(())
                    } else {
                        self.connect_answers.remove(0)
                    };
                    if answer.is_ok() && self.connect_takes_effect {
                        self.active.push((target.to_string(), Some("10.0.0.5".to_string())));
                    }
                    ControlEvent::Actuator(answer)
                }
                ControlRequest::Wait(ms) => {
                    self.now += ms;
                    ControlEvent::Waited
                }
                ControlRequest::QueryStatus(name) => {
                    ControlEvent::Status(if self.active.iter().any(|e| e.0 == name) {
                        VpnStatus::Connected
                    } else {
                        VpnStatus::Disconnected
                    })
                }
                ControlRequest::Done(result) => return result,
            };
        }
    }
}

fn run(
    mgr: &mut VpnManager,
    world: &mut World,
    goal: Goal,
    target: &str,
    policy: RetryPolicy,
) -> Outcome {
    let known = vec![target.to_string()];
    let mut op = Orchestrator::new(goal, target, policy);
    let mut event = Progress::Start;
    let mut returned_at = 0;
    for _ in 0..100_000 {
        let (next, task) = op.step(event);
        op = next;
        event = match task {
            Task::Run => {
                let result = match goal {
                    Goal::Connect => world.connect(mgr, target),
                    Goal::Disconnect => {
                        world.disconnects.push(target.to_string());
                        world.active.retain(|e| e.0 != target);
                        Ok(())
                    }
                };
                returned_at = world.now;
                Progress::Returned(result.map_err(|e| e.message()))
            }
            Task::Poll => {
                mgr.reconcile(&known, &world.active, world.now as i64);
                Progress::Observed(mgr.get_status(target), world.now - returned_at)
            }
            Task::Wait(ms) => {
                world.now += ms;
                world.waits.push(ms);
                Progress::Waited
            }
            Task::Sample => {
                world.samples += 1;
                if world.drop_at_sample == Some(world.samples) {
                    world.active.retain(|e| e.0 != target);
                }
                if let Some((at, name)) = world.intruder_at_sample.clone() {
                    if at == world.samples {
                        world.active.push((name, None));
                    }
                }
                mgr.reconcile(&known, &world.active, world.now as i64);
                Progress::Sampled(mgr.get_status(target), world.active.clone())
            }
            Task::Evict(names) => {
                for name in names {
                    world.disconnects.push(name.clone());
                    world.active.retain(|e| e.0 != name);
                }
                Progress::Evicted
            }
            Task::Finish(outcome) => return outcome,
        };
    }
    panic!("the operation did not end");
}

fn policy(timeout: u64, poll: u64, retries: u32, samples: u32) -> RetryPolicy {
    RetryPolicy {
        attempt_timeout_ms: timeout,
        poll_interval_ms: poll,
        max_retries: retries,
        retry_delay_ms: 2_000,
        stabilization_samples: samples,
        stabilization_interval_ms: 200,
    }
}

#[test]
fn presets() {
    assert_eq!(
        RetryPolicy::interactive_connect(),
        RetryPolicy {
            attempt_timeout_ms: 30_000,
            poll_interval_ms: 1_000,
            max_retries: 2,
            retry_delay_ms: 2_000,
            stabilization_samples: 0,
            stabilization_interval_ms: 0,
        }
    );
    assert_eq!(
        RetryPolicy::interactive_disconnect(),
        RetryPolicy {
            attempt_timeout_ms: 20_000,
            poll_interval_ms: 1_000,
            max_retries: 0,
            retry_delay_ms: 2_000,
            stabilization_samples: 0,
            stabilization_interval_ms: 0,
        }
    );
    assert_eq!(
        RetryPolicy::one_shot_connect(),
        RetryPolicy {
            attempt_timeout_ms: 10_000,
            poll_interval_ms: 500,
            max_retries: 2,
            retry_delay_ms: 2_000,
            stabilization_samples: 15,
            stabilization_interval_ms: 200,
        }
    );
}

#[test]
fn connect_succeeds_at_the_first_poll() {
    let mut mgr = VpnManager::new();
    let mut world = World::new();
    let outcome = run(&mut mgr, &mut world, Goal::Connect, "P", RetryPolicy::interactive_connect());
    assert_eq!(outcome, Outcome::Connected);
    assert_eq!(world.connects, 1);
    assert!(world.waits.is_empty());
    assert_eq!(mgr.get_status("P"), VpnStatus::Connected);
    assert_eq!(mgr.get("P").ip_address, Some("10.0.0.5".to_string()));
}

#[test]
fn timeout_when_the_probe_never_confirms() {
    let mut mgr = VpnManager::new();
    let mut world = World::new();
    world.connect_takes_effect = false;
    let outcome = run(&mut mgr, &mut world, Goal::Connect, "P", policy(2_000, 1_000, 0, 0));
    assert_eq!(outcome, Outcome::TimedOut(1));
    assert_eq!(world.connects, 1);
    assert_eq!(world.waits, vec![1_000, 1_000, 1_000]);
    assert_eq!(mgr.get_status("P"), VpnStatus::Disconnected);
}

#[test]
fn timeout_after_every_attempt_counts_the_attempts() {
    let mut mgr = VpnManager::new();
    let mut world = World::new();
    world.connect_takes_effect = false;
    let outcome = run(&mut mgr, &mut world, Goal::Connect, "P", policy(1_000, 500, 2, 0));
    assert_eq!(outcome, Outcome::TimedOut(3));
    assert_eq!(world.connects, 3);
    assert_eq!(world.waits.iter().filter(|w| **w == 2_000).count(), 2);
    assert_eq!(world.waits.iter().filter(|w| **w == 500).count(), 9);
}

#[test]
fn retry_until_the_third_attempt_succeeds() {
    let mut mgr = VpnManager::new();
    let mut world = World::new();
    world.connect_answers.push(Err("Failed to connect: busy".to_string()));
    world.connect_answers.push(Err("Failed to connect: busy".to_string()));
    world.connect_answers.push(Ok(()));
    let outcome = run(&mut mgr, &mut world, Goal::Connect, "P", policy(1_000, 500, 2, 0));
    assert_eq!(outcome, Outcome::Connected);
    assert_eq!(world.connects, 3);
    assert_eq!(mgr.get_status("P"), VpnStatus::Connected);
}

#[test]
fn no_fourth_attempt() {
    let mut mgr = VpnManager::new();
    let mut world = World::new();
    for _ in 0..3 {
        world.connect_answers.push(Err("Failed to connect: busy".to_string()));
    }
    world.connect_answers.push(Ok(()));
    let outcome = run(&mut mgr, &mut world, Goal::Connect, "P", policy(1_000, 500, 2, 0));
    assert_eq!(outcome, Outcome::TimedOut(3));
    assert_eq!(world.connects, 3);
}

#[test]
fn stabilization_failure_at_the_third_look() {
    let mut mgr = VpnManager::new();
    let mut world = World::new();
    world.drop_at_sample = Some(3);
    let outcome = run(&mut mgr, &mut world, Goal::Connect, "P", policy(1_000, 500, 2, 5));
    assert_eq!(outcome, Outcome::Unstable);
    assert_eq!(world.connects, 1);
    assert_eq!(world.samples, 3);
    assert_eq!(world.waits, vec![200, 200, 200]);
    assert_eq!(mgr.get_status("P"), VpnStatus::Disconnected);
}

#[test]
fn stable_connection_is_accepted_after_all_looks() {
    let mut mgr = VpnManager::new();
    let mut world = World::new();
    let outcome = run(&mut mgr, &mut world, Goal::Connect, "P", policy(1_000, 500, 2, 5));
    assert_eq!(outcome, Outcome::Connected);
    assert_eq!(world.samples, 5);
    assert_eq!(world.waits, vec![200; 5]);
}

#[test]
fn one_shot_connect_looks_fifteen_times() {
    let mut mgr = VpnManager::new();
    let mut world = World::new();
    let outcome = run(&mut mgr, &mut world, Goal::Connect, "P", RetryPolicy::one_shot_connect());
    assert_eq!(outcome, Outcome::Connected);
    assert_eq!(world.samples, 15);
    assert_eq!(world.now, 15 * 200);
}

#[test]
fn intruder_is_taken_down_and_the_watch_goes_on() {
    let mut mgr = VpnManager::new();
    let mut world = World::new();
    world.intruder_at_sample = Some((2, "X".to_string()));
    let outcome = run(&mut mgr, &mut world, Goal::Connect, "P", policy(1_000, 500, 2, 4));
    assert_eq!(outcome, Outcome::Connected);
    assert_eq!(world.samples, 4);
    assert_eq!(world.disconnects, vec!["X".to_string()]);
    assert!(!world.active.iter().any(|e| e.0 == "X"));
}

#[test]
fn intruder_at_the_last_look_is_still_taken_down() {
    let mut mgr = VpnManager::new();
    let mut world = World::new();
    world.intruder_at_sample = Some((2, "X".to_string()));
    let outcome = run(&mut mgr, &mut world, Goal::Connect, "P", policy(1_000, 500, 2, 2));
    assert_eq!(outcome, Outcome::Connected);
    assert_eq!(world.samples, 2);
    assert_eq!(world.disconnects, vec!["X".to_string()]);
}

#[test]
fn error_status_stops_without_retry() {
    let op = Orchestrator::new(Goal::Connect, "P", policy(1_000, 500, 2, 0));
    let (op, task) = op.step(Progress::Start);
    assert_eq!(task, Task::Run);
    let (op, task) = op.step(Progress::Returned(Err("Failed to connect: denied".to_string())));
    assert_eq!(task, Task::Poll);
    let (_, task) = op.step(Progress::Observed(VpnStatus::Error("denied".to_string()), 0));
    assert_eq!(task, Task::Finish(Outcome::Failed("denied".to_string())));
}

#[test]
fn timeout_is_strict() {
    let op = Orchestrator::new(Goal::Connect, "P", policy(1_000, 500, 0, 0));
    let (op, _) = op.step(Progress::Start);
    let (op, _) = op.step(Progress::Returned(Ok(())));
    let (op, task) = op.step(Progress::Observed(VpnStatus::Connecting, 1_000));
    assert_eq!(task, Task::Wait(500));
    let (op, task) = op.step(Progress::Waited);
    assert_eq!(task, Task::Poll);
    let (_, task) = op.step(Progress::Observed(VpnStatus::Connecting, 1_001));
    assert_eq!(task, Task::Finish(Outcome::TimedOut(1)));
}

#[test]
fn wanted_status_wins_over_the_clock() {
    let op = Orchestrator::new(Goal::Connect, "P", policy(1_000, 500, 0, 0));
    let (op, _) = op.step(Progress::Start);
    let (op, _) = op.step(Progress::Returned(Ok(())));
    let (_, task) = op.step(Progress::Observed(VpnStatus::Connected, 999_999));
    assert_eq!(task, Task::Finish(Outcome::Connected));
}

#[test]
fn disconnect_polls_until_down() {
    let mut mgr = VpnManager::new();
    let mut world = World::new();
    world.active.push(("P".to_string(), None));
    mgr.reconcile(&vec!["P".to_string()], &world.active, 1);
    let outcome =
        run(&mut mgr, &mut world, Goal::Disconnect, "P", RetryPolicy::interactive_disconnect());
    assert_eq!(outcome, Outcome::Disconnected);
    assert_eq!(world.disconnects, vec!["P".to_string()]);
    assert_eq!(mgr.get_status("P"), VpnStatus::Disconnected);
}

#[test]
fn disconnect_that_is_refused_ends_with_the_message() {
    let op = Orchestrator::new(Goal::Disconnect, "P", RetryPolicy::interactive_disconnect());
    let (op, task) = op.step(Progress::Start);
    assert_eq!(task, Task::Run);
    let (_, task) = op.step(Progress::Returned(Err("Failed to disconnect: x".to_string())));
    assert_eq!(task, Task::Finish(Outcome::Failed("Failed to disconnect: x".to_string())));
}

#[test]
fn refused_disconnect_is_retried_while_retries_are_left() {
    let op = Orchestrator::new(Goal::Disconnect, "P", policy(1_000, 500, 1, 0));
    let (op, _) = op.step(Progress::Start);
    let (op, task) = op.step(Progress::Returned(Err("no".to_string())));
    assert_eq!(task, Task::Wait(2_000));
    let (op, task) = op.step(Progress::Waited);
    assert_eq!(task, Task::Run);
    let (_, task) = op.step(Progress::Returned(Err("no again".to_string())));
    assert_eq!(task, Task::Finish(Outcome::Failed("no again".to_string())));
}

#[test]
fn disconnect_times_out() {
    let op = Orchestrator::new(Goal::Disconnect, "P", RetryPolicy::interactive_disconnect());
    let (op, _) = op.step(Progress::Start);
    let (op, task) = op.step(Progress::Returned(Ok(())));
    assert_eq!(task, Task::Poll);
    let (op, task) = op.step(Progress::Observed(VpnStatus::Connected, 20_000));
    assert_eq!(task, Task::Wait(1_000));
    let (op, _) = op.step(Progress::Waited);
    let (_, task) = op.step(Progress::Observed(VpnStatus::Disconnecting, 21_000));
    assert_eq!(task, Task::Finish(Outcome::TimedOut(1)));
}

#[test]
fn disconnect_is_never_watched() {
    let op = Orchestrator::new(Goal::Disconnect, "P", policy(1_000, 500, 0, 5));
    let (op, _) = op.step(Progress::Start);
    let (op, _) = op.step(Progress::Returned(Ok(())));
    let (_, task) = op.step(Progress::Observed(VpnStatus::Disconnected, 0));
    assert_eq!(task, Task::Finish(Outcome::Disconnected));
}

#[test]
fn answers_out_of_turn_end_the_operation() {
    let op = Orchestrator::new(Goal::Connect, "P", RetryPolicy::interactive_connect());
    let (op, task) = op.step(Progress::Waited);
    assert_eq!(task, Task::Finish(Outcome::Unexpected));
    let (_, task) = op.step(Progress::Start);
    assert_eq!(task, Task::Finish(Outcome::Unexpected));

    let op = Orchestrator::new(Goal::Connect, "P", RetryPolicy::interactive_connect());
    let (op, _) = op.step(Progress::Start);
    let (_, task) = op.step(Progress::Evicted);
    assert_eq!(task, Task::Finish(Outcome::Unexpected));
}

#[test]
fn sample_with_unlisted_connections_is_stable() {
    let op = Orchestrator::new(Goal::Connect, "P", policy(1_000, 500, 0, 1));
    let (op, _) = op.step(Progress::Start);
    let (op, _) = op.step(Progress::Returned(Ok(())));
    let (op, task) = op.step(Progress::Observed(VpnStatus::Connected, 0));
    assert_eq!(task, Task::Wait(200));
    let (op, task) = op.step(Progress::Waited);
    assert_eq!(task, Task::Sample);
    let (_, task) = op.step(Progress::Sampled(VpnStatus::Connected, Vec::new()));
    assert_eq!(task, Task::Finish(Outcome::Connected));
}

#[test]
fn sample_names_every_intruder() {
    let op = Orchestrator::new(Goal::Connect, "P", policy(1_000, 500, 0, 2));
    let (op, _) = op.step(Progress::Start);
    let (op, _) = op.step(Progress::Returned(Ok(())));
    let (op, _) = op.step(Progress::Observed(VpnStatus::Connected, 0));
    let (op, _) = op.step(Progress::Waited);
    let active = vec![
        ("X".to_string(), None),
        ("P".to_string(), Some("10.0.0.5".to_string())),
        ("Y".to_string(), None),
    ];
    let (op, task) = op.step(Progress::Sampled(VpnStatus::Connected, active));
    assert_eq!(task, Task::Evict(vec!["X".to_string(), "Y".to_string()]));
    let (op, task) = op.step(Progress::Evicted);
    assert_eq!(task, Task::Wait(200));
    let (op, task) = op.step(Progress::Waited);
    assert_eq!(task, Task::Sample);
    let (_, task) = op.step(Progress::Sampled(VpnStatus::Connecting, Vec::new()));
    assert_eq!(task, Task::Finish(Outcome::Unstable));
}

#[test]
fn attempts_are_announced() {
    let op = Orchestrator::new(Goal::Connect, "Office", policy(1_000, 500, 2, 0));
    assert_eq!(op.goal(), Goal::Connect);
    assert_eq!(op.target(), "Office");
    assert!(!op.is_finished());
    assert_eq!(op.attempt_number(), 1);
    assert_eq!(op.attempts_allowed(), 3);
    assert_eq!(op.announcement(), "Connecting to Office... (attempt 1/3)");
    assert_eq!(op.shown_status(), VpnStatus::Connecting);
    let (op, _) = op.step(Progress::Start);
    let (op, _) = op.step(Progress::Returned(Ok(())));
    let (op, task) = op.step(Progress::Observed(VpnStatus::Connecting, 2_000));
    assert_eq!(task, Task::Wait(2_000));
    assert_eq!(op.attempt_number(), 2);
    assert_eq!(op.announcement(), "Connecting to Office... (attempt 2/3)");
    assert_eq!(op.shown_status(), VpnStatus::Retrying(1, 3));
    assert_eq!(op.shown_status().as_str(), "Retry 1/3...");
    let (op, _) = op.step(Progress::Waited);
    let (op, _) = op.step(Progress::Returned(Ok(())));
    let (op, task) = op.step(Progress::Observed(VpnStatus::Connected, 0));
    assert_eq!(task, Task::Finish(Outcome::Connected));
    assert!(op.is_finished());
}

#[test]
fn disconnect_is_announced() {
    let op = Orchestrator::new(Goal::Disconnect, "Office", RetryPolicy::interactive_disconnect());
    assert_eq!(op.announcement(), "Disconnecting from Office...");
    assert_eq!(op.shown_status(), VpnStatus::Disconnecting);
    assert_eq!(op.attempts_allowed(), 1);
}

#[test]
fn attempt_numbers_do_not_overflow() {
    let op = Orchestrator::new(Goal::Connect, "P", policy(0, 0, u32::MAX, 0));
    assert_eq!(op.attempts_allowed(), 4_294_967_296);
    let (op, _) = op.step(Progress::Start);
    let (op, _) = op.step(Progress::Returned(Ok(())));
    let (op, _) = op.step(Progress::Observed(VpnStatus::Connecting, 1));
    assert_eq!(op.shown_status(), VpnStatus::Retrying(1, u32::MAX));
}

#[test]
fn outcomes_are_told() {
    assert!(Outcome::Connected.is_success());
    assert!(Outcome::Disconnected.is_success());
    assert!(!Outcome::Unstable.is_success());
    assert!(!Outcome::TimedOut(3).is_success());
    assert!(!Outcome::Failed("x".to_string()).is_success());
    assert!(!Outcome::Unexpected.is_success());
    assert_eq!(Outcome::Connected.message(Goal::Connect, "P"), "Connected to P");
    assert_eq!(Outcome::Disconnected.message(Goal::Disconnect, "P"), "Disconnected from P");
    assert_eq!(
        Outcome::TimedOut(3).message(Goal::Connect, "P"),
        "Failed to connect to P after 3 attempts"
    );
    assert_eq!(
        Outcome::TimedOut(1).message(Goal::Disconnect, "P"),
        "Timeout while disconnecting P"
    );
    assert_eq!(
        Outcome::Failed("denied".to_string()).message(Goal::Connect, "P"),
        "Status error while connecting P: denied"
    );
    assert_eq!(
        Outcome::Failed("busy".to_string()).message(Goal::Disconnect, "P"),
        "Disconnect error: busy"
    );
    assert_eq!(
        Outcome::Unstable.message(Goal::Connect, "P"),
        "Connection to P dropped during stabilization"
    );
    assert_eq!(
        Outcome::Unexpected.message(Goal::Connect, "P"),
        "Unexpected answer to a task of the orchestrator"
    );
}

fn watching(samples: u32) -> Orchestrator {
    let op = Orchestrator::new(Goal::Connect, "P", policy(1_000, 500, 0, samples));
    let (op, _) = op.step(Progress::Start);
    let (op, _) = op.step(Progress::Returned(Ok(())));
    let (op, task) = op.step(Progress::Observed(VpnStatus::Connected, 0));
    assert_eq!(task, Task::Wait(200));
    let (op, task) = op.step(Progress::Waited);
    assert_eq!(task, Task::Sample);
    op
}

fn listed(names: &[&str]) -> Vec<(String, Option<String>)> {
    names.iter().map(|n| (n.to_string(), None)).collect()
}

#[test]
fn intruder_that_comes_back_makes_the_connection_unstable() {
    let op = watching(5);
    let (op, task) = op.step(Progress::Sampled(VpnStatus::Connected, listed(&["X", "P"])));
    assert_eq!(task, Task::Evict(vec!["X".to_string()]));
    let (op, _) = op.step(Progress::Evicted);
    let (op, _) = op.step(Progress::Waited);
    let (op, task) = op.step(Progress::Sampled(VpnStatus::Connected, listed(&["P"])));
    assert_eq!(task, Task::Wait(200));
    let (op, _) = op.step(Progress::Waited);
    let (op, task) = op.step(Progress::Sampled(VpnStatus::Connected, listed(&["P", "X"])));
    assert_eq!(task, Task::Finish(Outcome::Unstable));
    assert!(op.is_finished());
}

#[test]
fn another_intruder_is_taken_down_as_well() {
    let op = watching(5);
    let (op, task) = op.step(Progress::Sampled(VpnStatus::Connected, listed(&["X"])));
    assert_eq!(task, Task::Evict(vec!["X".to_string()]));
    let (op, _) = op.step(Progress::Evicted);
    let (op, _) = op.step(Progress::Waited);
    let (op, task) = op.step(Progress::Sampled(VpnStatus::Connected, listed(&["Y", "Z"])));
    assert_eq!(task, Task::Evict(vec!["Y".to_string(), "Z".to_string()]));
    let (op, _) = op.step(Progress::Evicted);
    let (op, _) = op.step(Progress::Waited);
    let (_, task) = op.step(Progress::Sampled(VpnStatus::Connected, listed(&["Q", "Z"])));
    assert_eq!(task, Task::Finish(Outcome::Unstable));
}

#[test]
fn intruder_at_the_only_look_is_taken_down() {
    let op = Orchestrator::new(Goal::Connect, "P", policy(1_000, 500, 1, 1));
    let (op, _) = op.step(Progress::Start);
    let (op, _) = op.step(Progress::Returned(Ok(())));
    let (op, _) = op.step(Progress::Observed(VpnStatus::Connected, 0));
    let (op, _) = op.step(Progress::Waited);
    let (op, task) = op.step(Progress::Sampled(VpnStatus::Connected, listed(&["X"])));
    assert_eq!(task, Task::Evict(vec!["X".to_string()]));
    let (_, task) = op.step(Progress::Evicted);
    assert_eq!(task, Task::Finish(Outcome::Connected));
}

#[test]
fn shared_names() {
    let a = vec!["x".to_string(), "y".to_string()];
    let b = vec!["z".to_string(), "y".to_string()];
    let c = vec!["q".to_string()];
    assert!(any_shared(&a, &b));
    assert!(!any_shared(&a, &c));
    assert!(!any_shared(&a, &Vec::new()));
    assert!(!any_shared(&Vec::new(), &a));
}

#[test]
fn a_toggle_disconnects_what_is_connected() {
    assert_eq!(
        toggle_plan(&VpnStatus::Connected),
        (Goal::Disconnect, RetryPolicy::interactive_disconnect())
    );
    for status in [
        VpnStatus::Disconnected,
        VpnStatus::Connecting,
        VpnStatus::Disconnecting,
        VpnStatus::Retrying(1, 3),
        VpnStatus::Error("x".to_string()),
    ] {
        assert_eq!(toggle_plan(&status), (Goal::Connect, RetryPolicy::interactive_connect()));
    }
}
