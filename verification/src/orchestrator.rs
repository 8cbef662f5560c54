//! The operation orchestrator: a connect or a disconnect driven to a final
//! outcome, with a time limit for each attempt, a bounded number of retries,
//! and, after a connect, a watch over the new connection.
//!
//! Like the controller, the orchestrator is a state machine. It is handed
//! what its last task brought and names the next one; the caller runs the
//! controller, reconciles the cache, reads the clock and sleeps.
//!
//! An attempt runs the controller once and then polls: the cache is
//! reconciled and the target's status read, again and again, until the status
//! is the wanted one, is an `Error`, or the attempt's time is up. Only an
//! attempt whose time ran out, or a request that failed, is tried again. An
//! `Error` status is a reported condition, not a missing answer: it ends the
//! operation at once.

use crate::controller::{names_of_others, other_names};
use crate::text::{decimal_digits, push_decimal};
use crate::vpn::{ActiveList, StatusView, VpnStatus};
use vstd::prelude::*;

verus! {

/// What an operation is to reach.
#[derive(Debug, Clone, Copy, PartialEq, Eq, Structural)]
pub enum Goal {
    Connect,
    Disconnect,
}

/// The limits of an operation. Times are in milliseconds.
#[derive(Debug, Clone, Copy, PartialEq, Eq, Structural)]
pub struct RetryPolicy {
    /// How long an attempt may poll for the wanted status.
    pub attempt_timeout_ms: u64,
    /// The time between two polls.
    pub poll_interval_ms: u64,
    /// How many attempts may follow the first one.
    pub max_retries: u32,
    /// The time between two attempts.
    pub retry_delay_ms: u64,
    /// How many times a new connection is looked at before it is accepted;
    /// zero accepts it at once.
    pub stabilization_samples: u32,
    /// The time before each such look.
    pub stabilization_interval_ms: u64,
}

/// The limits of a connect that a user started from the interactive screen.
pub open spec fn interactive_connect_policy() -> RetryPolicy {
    RetryPolicy {
        attempt_timeout_ms: 30_000,
        poll_interval_ms: 1_000,
        max_retries: 2,
        retry_delay_ms: 2_000,
        stabilization_samples: 0,
        stabilization_interval_ms: 0,
    }
}

/// The limits of a disconnect that a user started from the interactive
/// screen.
pub open spec fn interactive_disconnect_policy() -> RetryPolicy {
    RetryPolicy {
        attempt_timeout_ms: 20_000,
        poll_interval_ms: 1_000,
        max_retries: 0,
        retry_delay_ms: 2_000,
        stabilization_samples: 0,
        stabilization_interval_ms: 0,
    }
}

/// The limits of a connect that was started from the command line.
pub open spec fn one_shot_connect_policy() -> RetryPolicy {
    RetryPolicy {
        attempt_timeout_ms: 10_000,
        poll_interval_ms: 500,
        max_retries: 2,
        retry_delay_ms: 2_000,
        stabilization_samples: 15,
        stabilization_interval_ms: 200,
    }
}

/// What a toggle of a profile with this cached status starts: a connected
/// profile is disconnected, any other is connected, each within the limits
/// of the interactive screen.
pub open spec fn toggle_plan_of(status: StatusView) -> (Goal, RetryPolicy) {
    if status == StatusView::Connected {
        (Goal::Disconnect, interactive_disconnect_policy())
    } else {
        (Goal::Connect, interactive_connect_policy())
    }
}

/// What a toggle of a profile with this cached status starts.
pub fn toggle_plan(status: &VpnStatus) -> (plan: (Goal, RetryPolicy))
    ensures
        plan == toggle_plan_of(status@),
{
    if status.is_connected() {
        (Goal::Disconnect, RetryPolicy::interactive_disconnect())
    } else {
        (Goal::Connect, RetryPolicy::interactive_connect())
    }
}

impl RetryPolicy {
    /// The limits of a connect that a user started from the interactive
    /// screen: three attempts of thirty seconds, polled every second.
    pub fn interactive_connect() -> (policy: Self)
        ensures
            policy == interactive_connect_policy(),
    {
        RetryPolicy {
            attempt_timeout_ms: 30_000,
            poll_interval_ms: 1_000,
            max_retries: 2,
            retry_delay_ms: 2_000,
            stabilization_samples: 0,
            stabilization_interval_ms: 0,
        }
    }

    /// The limits of a disconnect that a user started from the interactive
    /// screen: one attempt of twenty seconds, polled every second.
    pub fn interactive_disconnect() -> (policy: Self)
        ensures
            policy == interactive_disconnect_policy(),
    {
        RetryPolicy {
            attempt_timeout_ms: 20_000,
            poll_interval_ms: 1_000,
            max_retries: 0,
            retry_delay_ms: 2_000,
            stabilization_samples: 0,
            stabilization_interval_ms: 0,
        }
    }

    /// The limits of a connect that was started from the command line: three
    /// attempts of ten seconds, polled twice a second, and a watch of
    /// fifteen looks over the new connection.
    pub fn one_shot_connect() -> (policy: Self)
        ensures
            policy == one_shot_connect_policy(),
    {
        RetryPolicy {
            attempt_timeout_ms: 10_000,
            poll_interval_ms: 500,
            max_retries: 2,
            retry_delay_ms: 2_000,
            stabilization_samples: 15,
            stabilization_interval_ms: 200,
        }
    }
}

/// How an operation ended.
#[derive(Debug, PartialEq)]
pub enum Outcome {
    /// The connection is up and, where it was watched, stayed up.
    Connected,
    /// The connection is down.
    Disconnected,
    /// The operation was stopped by a reported condition: an `Error` status,
    /// or a disconnect request that failed. The message is attached.
    Failed(String),
    /// No attempt reached the wanted status in its time; the number of
    /// attempts made is attached.
    TimedOut(u64),
    /// The connection came up and was then seen to be no longer connected.
    Unstable,
    /// The operation was handed something that answers none of its tasks.
    Unexpected,
}

/// The mathematical value of an [`Outcome`].
pub enum OutcomeView {
    Connected,
    Disconnected,
    Failed(Seq<char>),
    TimedOut(u64),
    Unstable,
    Unexpected,
}

impl View for Outcome {
    type V = OutcomeView;

    open spec fn view(&self) -> OutcomeView {
        match self {
            Outcome::Connected => OutcomeView::Connected,
            Outcome::Disconnected => OutcomeView::Disconnected,
            Outcome::Failed(message) => OutcomeView::Failed(message@),
            Outcome::TimedOut(attempts) => OutcomeView::TimedOut(*attempts),
            Outcome::Unstable => OutcomeView::Unstable,
            Outcome::Unexpected => OutcomeView::Unexpected,
        }
    }
}

/// What the caller is to do for an operation next.
#[derive(Debug, PartialEq)]
pub enum Task {
    /// Run the controller's connect or disconnect of the target to its end;
    /// answer with `Returned`.
    Run,
    /// Reconcile the cache, then read the target's status; answer with
    /// `Observed`, and with the time since the controller returned.
    Poll,
    /// Let this many milliseconds pass; answer with `Waited`.
    Wait(u64),
    /// Reconcile the cache, then read the target's status and list the
    /// active connections; answer with `Sampled`.
    Sample,
    /// Disconnect each of the named connections, whatever comes of it; answer
    /// with `Evicted`.
    Evict(Vec<String>),
    /// Nothing more: the operation has ended, in this way.
    Finish(Outcome),
}

/// The mathematical value of a [`Task`].
pub enum TaskView {
    Run,
    Poll,
    Wait(u64),
    Sample,
    Evict(Seq<Seq<char>>),
    Finish(OutcomeView),
}

impl View for Task {
    type V = TaskView;

    open spec fn view(&self) -> TaskView {
        match self {
            Task::Run => TaskView::Run,
            Task::Poll => TaskView::Poll,
            Task::Wait(millis) => TaskView::Wait(*millis),
            Task::Sample => TaskView::Sample,
            Task::Evict(names) => TaskView::Evict(names.deep_view()),
            Task::Finish(outcome) => TaskView::Finish(outcome@),
        }
    }
}

/// What the last task of an operation brought.
#[derive(Debug, PartialEq)]
pub enum Progress {
    /// Nothing yet: the operation is to begin.
    Start,
    /// The controller returned: well, or with the message of its failure.
    Returned(Result<(), String>),
    /// The target's status after a reconciliation, and the milliseconds that
    /// have passed since the controller returned.
    Observed(VpnStatus, u64),
    /// The time asked for has passed.
    Waited,
    /// The target's status, and the active connections; an empty list where
    /// they could not be listed.
    Sampled(VpnStatus, Vec<(String, Option<String>)>),
    /// The connections named were asked to go down.
    Evicted,
}

/// The mathematical value of a [`Progress`].
pub enum ProgressView {
    Start,
    Returned(Result<(), Seq<char>>),
    Observed(StatusView, u64),
    Waited,
    Sampled(StatusView, ActiveList),
    Evicted,
}

impl View for Progress {
    type V = ProgressView;

    open spec fn view(&self) -> ProgressView {
        match self {
            Progress::Start => ProgressView::Start,
            Progress::Returned(Ok(_)) => ProgressView::Returned(Ok(())),
            Progress::Returned(Err(message)) => ProgressView::Returned(Err(message@)),
            Progress::Observed(status, elapsed) => ProgressView::Observed(status@, *elapsed),
            Progress::Waited => ProgressView::Waited,
            Progress::Sampled(status, active) => ProgressView::Sampled(
                status@,
                active.deep_view(),
            ),
            Progress::Evicted => ProgressView::Evicted,
        }
    }
}

/// Where an operation stands.
#[derive(Debug, Clone, Copy, PartialEq, Eq, Structural)]
pub enum Stage {
    /// Not begun.
    Idle,
    /// The controller is running.
    Running,
    /// The target's status was asked for.
    Polling,
    /// Between two polls.
    Sleeping,
    /// Between two attempts.
    Backoff,
    /// Before a look at the new connection.
    Resting,
    /// The new connection is looked at.
    Sampling,
    /// Other active connections are taken down.
    Evicting,
    /// Ended.
    Finished,
}

/// One orchestrated connect or disconnect, as far as it has come.
#[derive(Debug)]
pub struct Orchestrator {
    goal: Goal,
    target: String,
    policy: RetryPolicy,
    attempt: u32,
    stage: Stage,
    remaining: u32,
    evicted: Vec<String>,
}

/// The mathematical value of an [`Orchestrator`]: what it is to reach, for
/// which profile and within which limits; how many attempts it has behind it;
/// where it stands; how many looks at the new connection are still to come;
/// and which other connections it has had taken down while it watched.
pub struct OrchestratorView {
    pub goal: Goal,
    pub target: Seq<char>,
    pub policy: RetryPolicy,
    pub attempt: u32,
    pub stage: Stage,
    pub remaining: u32,
    pub evicted: Seq<Seq<char>>,
}

impl View for Orchestrator {
    type V = OrchestratorView;

    closed spec fn view(&self) -> OrchestratorView {
        OrchestratorView {
            goal: self.goal,
            target: self.target@,
            policy: self.policy,
            attempt: self.attempt,
            stage: self.stage,
            remaining: self.remaining,
            evicted: self.evicted.deep_view(),
        }
    }
}

/// An operation that has not begun.
pub open spec fn orchestrator_idle(goal: Goal, target: Seq<char>, policy: RetryPolicy) -> OrchestratorView {
    OrchestratorView {
        goal,
        target,
        policy,
        attempt: 0,
        stage: Stage::Idle,
        remaining: 0,
        evicted: Seq::empty(),
    }
}

/// The status that an operation polls for.
pub open spec fn wanted_status(goal: Goal) -> StatusView {
    match goal {
        Goal::Connect => StatusView::Connected,
        Goal::Disconnect => StatusView::Disconnected,
    }
}

/// The outcome of an operation that reached what it was to reach.
pub open spec fn success_of(goal: Goal) -> OutcomeView {
    match goal {
        Goal::Connect => OutcomeView::Connected,
        Goal::Disconnect => OutcomeView::Disconnected,
    }
}

/// An operation that ends here with `outcome`.
pub open spec fn finish(op: OrchestratorView, outcome: OutcomeView) -> (
    OrchestratorView,
    TaskView,
) {
    (OrchestratorView { stage: Stage::Finished, ..op }, TaskView::Finish(outcome))
}

/// What follows an attempt that did not reach the wanted status. While
/// retries are left the operation waits and tries again. After the last
/// attempt it ends: with `reason` where the attempt was refused for one, and
/// as timed out otherwise.
pub open spec fn attempt_failed(op: OrchestratorView, reason: Option<Seq<char>>) -> (
    OrchestratorView,
    TaskView,
) {
    if op.attempt < op.policy.max_retries {
        (
            OrchestratorView { stage: Stage::Backoff, attempt: (op.attempt + 1) as u32, ..op },
            TaskView::Wait(op.policy.retry_delay_ms),
        )
    } else {
        match reason {
            Some(message) => finish(op, OutcomeView::Failed(message)),
            None => finish(op, OutcomeView::TimedOut((op.attempt + 1) as u64)),
        }
    }
}

/// What follows a look at the new connection that found it connected: the
/// next look, or, after the last one, success.
pub open spec fn after_sample(op: OrchestratorView) -> (OrchestratorView, TaskView) {
    if op.remaining == 0 {
        finish(op, OutcomeView::Connected)
    } else {
        (
            OrchestratorView { stage: Stage::Resting, ..op },
            TaskView::Wait(op.policy.stabilization_interval_ms),
        )
    }
}

/// One of the names of `names` is among those of `others`.
pub open spec fn shares_a_name(names: Seq<Seq<char>>, others: Seq<Seq<char>>) -> bool {
    exists|i: int, j: int|
        0 <= i < names.len() && 0 <= j < others.len() && #[trigger] names[i] == #[trigger] others[j]
}

/// One look less to come.
pub open spec fn one_less(remaining: u32) -> u32 {
    if remaining > 0 {
        (remaining - 1) as u32
    } else {
        0
    }
}

/// One step of an operation: the operation and its next task after `event`
/// reached the operation `op`.
///
/// - An attempt runs the controller. A disconnect whose request failed counts
///   as a failed attempt at once; in every other case the attempt polls.
/// - A poll that finds the wanted status succeeds. A poll that finds an
///   `Error` ends the operation with that message, whatever retries are left.
///   Any other status lets the attempt wait for the next poll, unless more
///   than the attempt's time has passed: then the attempt has failed.
/// - A failed attempt is followed by the next one after the retry delay, and
///   by the end of the operation when no retry is left.
/// - A connect that succeeded is watched where the policy asks for it: the
///   connection is looked at so many times, after the interval each time. A
///   look that finds the target not connected ends the operation as
///   `Unstable`. A look that finds other connections active has them taken
///   down, and the watch goes on; but a look that finds a connection active
///   that was taken down at an earlier look ends the operation as `Unstable`.
/// - An event that answers no task ends the operation as `Unexpected`.
pub open spec fn orchestrate(op: OrchestratorView, event: ProgressView) -> (
    OrchestratorView,
    TaskView,
) {
    match (op.stage, event) {
        (Stage::Idle, ProgressView::Start) => (
            OrchestratorView { stage: Stage::Running, ..op },
            TaskView::Run,
        ),
        (Stage::Running, ProgressView::Returned(answer)) => match answer {
            Err(message) if op.goal == Goal::Disconnect => attempt_failed(op, Some(message)),
            _ => (OrchestratorView { stage: Stage::Polling, ..op }, TaskView::Poll),
        },
        (Stage::Polling, ProgressView::Observed(status, elapsed)) => if status == wanted_status(
            op.goal,
        ) {
            if op.goal == Goal::Connect && op.policy.stabilization_samples > 0 {
                (
                    OrchestratorView {
                        stage: Stage::Resting,
                        remaining: op.policy.stabilization_samples,
                        evicted: Seq::empty(),
                        ..op
                    },
                    TaskView::Wait(op.policy.stabilization_interval_ms),
                )
            } else {
                finish(op, success_of(op.goal))
            }
        } else if status is Error {
            finish(op, OutcomeView::Failed(status->Error_0))
        } else if elapsed > op.policy.attempt_timeout_ms {
            attempt_failed(op, None)
        } else {
            (
                OrchestratorView { stage: Stage::Sleeping, ..op },
                TaskView::Wait(op.policy.poll_interval_ms),
            )
        },
        (Stage::Sleeping, ProgressView::Waited) => (
            OrchestratorView { stage: Stage::Polling, ..op },
            TaskView::Poll,
        ),
        (Stage::Backoff, ProgressView::Waited) => (
            OrchestratorView { stage: Stage::Running, ..op },
            TaskView::Run,
        ),
        (Stage::Resting, ProgressView::Waited) => (
            OrchestratorView { stage: Stage::Sampling, ..op },
            TaskView::Sample,
        ),
        (Stage::Sampling, ProgressView::Sampled(status, active)) => if status
            != StatusView::Connected {
            finish(op, OutcomeView::Unstable)
        } else {
            let looked = OrchestratorView { remaining: one_less(op.remaining), ..op };
            let intruders = other_names(active, op.target);
            if shares_a_name(intruders, op.evicted) {
                finish(op, OutcomeView::Unstable)
            } else if intruders.len() > 0 {
                (
                    OrchestratorView {
                        stage: Stage::Evicting,
                        evicted: op.evicted + intruders,
                        ..looked
                    },
                    TaskView::Evict(intruders),
                )
            } else {
                after_sample(looked)
            }
        },
        (Stage::Evicting, ProgressView::Evicted) => after_sample(op),
        _ => finish(op, OutcomeView::Unexpected),
    }
}

/// Whether one of the names of `names` is among those of `others`.
pub fn any_shared(names: &Vec<String>, others: &Vec<String>) -> (shared: bool)
    ensures
        shared == shares_a_name(names.deep_view(), others.deep_view()),
{
    let mut i: usize = 0;
    while i < names.len()
        invariant
            i <= names.len(),
            forall|a: int, b: int|
                0 <= a < i && 0 <= b < others.len() ==> names[a]@ != others[b]@,
        decreases names.len() - i,
    {
        let mut j: usize = 0;
        while j < others.len()
            invariant
                i < names.len(),
                j <= others.len(),
                forall|b: int| 0 <= b < j ==> names[i as int]@ != others[b]@,
            decreases others.len() - j,
        {
            if names[i] == others[j] {
                assert(names.deep_view()[i as int] == others.deep_view()[j as int]);
                return true;
            }
            j += 1;
        }
        i += 1;
    }
    false
}

/// The names of `first`, then copies of those of `second`.
fn joined(first: Vec<String>, second: &Vec<String>) -> (all: Vec<String>)
    ensures
        all.deep_view() == first.deep_view() + second.deep_view(),
{
    let mut all = first;
    let mut i: usize = 0;
    while i < second.len()
        invariant
            i <= second.len(),
            all.deep_view() =~= first.deep_view() + second.deep_view().take(i as int),
        decreases second.len() - i,
    {
        let ghost before = all.deep_view();
        let name = second[i].clone();
        all.push(name);
        assert(all.deep_view() =~= before.push(name@));
        assert(second.deep_view().take(i + 1) =~= second.deep_view().take(i as int).push(name@));
        i += 1;
    }
    assert(second.deep_view().take(second.len() as int) =~= second.deep_view());
    all
}

impl Orchestrator {
    /// An operation that is to reach `goal` for the profile `target` within
    /// the limits of `policy`, and has not begun.
    pub fn new(goal: Goal, target: &str, policy: RetryPolicy) -> (op: Self)
        ensures
            op@ == orchestrator_idle(goal, target@, policy),
    {
        let op = Orchestrator {
            goal,
            target: String::from_str(target),
            policy,
            attempt: 0,
            stage: Stage::Idle,
            remaining: 0,
            evicted: Vec::new(),
        };
        assert(op.evicted.deep_view() =~= Seq::empty());
        op
    }

    /// Ends the operation with `outcome`.
    fn finish(self, outcome: Outcome) -> (next: (Orchestrator, Task))
        ensures
            (next.0@, next.1@) == finish(self@, outcome@),
    {
        let mut op = self;
        op.stage = Stage::Finished;
        (op, Task::Finish(outcome))
    }

    /// Goes on after an attempt that did not reach the wanted status.
    fn attempt_failed(self, reason: Option<String>) -> (next: (Orchestrator, Task))
        ensures
            (next.0@, next.1@) == attempt_failed(
                self@,
                match reason {
                    Some(message) => Some(message@),
                    None => None,
                },
            ),
    {
        if self.attempt < self.policy.max_retries {
            let mut op = self;
            op.stage = Stage::Backoff;
            op.attempt = op.attempt + 1;
            let delay = op.policy.retry_delay_ms;
            (op, Task::Wait(delay))
        } else {
            match reason {
                Some(message) => self.finish(Outcome::Failed(message)),
                None => {
                    let attempts: u64 = self.attempt as u64 + 1;
                    self.finish(Outcome::TimedOut(attempts))
                },
            }
        }
    }

    /// Goes on after a look at the new connection that found it connected.
    fn after_sample(self) -> (next: (Orchestrator, Task))
        ensures
            (next.0@, next.1@) == after_sample(self@),
    {
        if self.remaining == 0 {
            self.finish(Outcome::Connected)
        } else {
            let mut op = self;
            op.stage = Stage::Resting;
            let interval = op.policy.stabilization_interval_ms;
            (op, Task::Wait(interval))
        }
    }

    /// Moves to `stage` and asks for `task`.
    fn go(self, stage: Stage, task: Task) -> (next: (Orchestrator, Task))
        ensures
            next.0@ == (OrchestratorView { stage, ..self@ }),
            next.1 == task,
    {
        let mut op = self;
        op.stage = stage;
        (op, task)
    }

    /// Takes the operation one step further: names the task that follows
    /// what `event` brought.
    pub fn step(self, event: Progress) -> (next: (Orchestrator, Task))
        ensures
            (next.0@, next.1@) == orchestrate(self@, event@),
    {
        match (self.stage, event) {
            (Stage::Idle, Progress::Start) => self.go(Stage::Running, Task::Run),
            (Stage::Running, Progress::Returned(answer)) => {
                match answer {
                    Err(message) => {
                        if self.goal == Goal::Disconnect {
                            self.attempt_failed(Some(message))
                        } else {
                            self.go(Stage::Polling, Task::Poll)
                        }
                    },
                    Ok(_) => self.go(Stage::Polling, Task::Poll),
                }
            },
            (Stage::Polling, Progress::Observed(status, elapsed)) => {
                let reached = match (self.goal, &status) {
                    (Goal::Connect, VpnStatus::Connected) => true,
                    (Goal::Disconnect, VpnStatus::Disconnected) => true,
                    _ => false,
                };
                if reached {
                    if self.goal == Goal::Connect && self.policy.stabilization_samples > 0 {
                        let mut op = self;
                        op.stage = Stage::Resting;
                        op.remaining = op.policy.stabilization_samples;
                        op.evicted = Vec::new();
                        assert(op.evicted.deep_view() =~= Seq::empty());
                        let interval = op.policy.stabilization_interval_ms;
                        (op, Task::Wait(interval))
                    } else {
                        let outcome = match self.goal {
                            Goal::Connect => Outcome::Connected,
                            Goal::Disconnect => Outcome::Disconnected,
                        };
                        self.finish(outcome)
                    }
                } else {
                    match status {
                        VpnStatus::Error(message) => self.finish(Outcome::Failed(message)),
                        _ => {
                            if elapsed > self.policy.attempt_timeout_ms {
                                self.attempt_failed(None)
                            } else {
                                let interval = self.policy.poll_interval_ms;
                                self.go(Stage::Sleeping, Task::Wait(interval))
                            }
                        },
                    }
                }
            },
            (Stage::Sleeping, Progress::Waited) => self.go(Stage::Polling, Task::Poll),
            (Stage::Backoff, Progress::Waited) => self.go(Stage::Running, Task::Run),
            (Stage::Resting, Progress::Waited) => self.go(Stage::Sampling, Task::Sample),
            (Stage::Sampling, Progress::Sampled(status, active)) => {
                if !status.is_connected() {
                    self.finish(Outcome::Unstable)
                } else {
                    let intruders = names_of_others(&active, self.target.as_str());
                    if any_shared(&intruders, &self.evicted) {
                        self.finish(Outcome::Unstable)
                    } else {
                        let mut op = self;
                        op.remaining = if op.remaining > 0 {
                            op.remaining - 1
                        } else {
                            0
                        };
                        if intruders.len() > 0 {
                            op.stage = Stage::Evicting;
                            op.evicted = joined(op.evicted, &intruders);
                            (op, Task::Evict(intruders))
                        } else {
                            op.after_sample()
                        }
                    }
                }
            },
            (Stage::Evicting, Progress::Evicted) => self.after_sample(),
            (_, _) => self.finish(Outcome::Unexpected),
        }
    }
}

/// The number that the attempt at hand has among all attempts, from one.
pub open spec fn attempt_number_of(op: OrchestratorView) -> u64 {
    (op.attempt + 1) as u64
}

/// The number of attempts that the policy allows.
pub open spec fn attempts_allowed_by(policy: RetryPolicy) -> u64 {
    (policy.max_retries + 1) as u64
}

/// What is said while an attempt runs.
pub open spec fn announcement_of(op: OrchestratorView) -> Seq<char> {
    match op.goal {
        Goal::Connect => "Connecting to "@ + op.target + "... (attempt "@ + decimal_digits(
            attempt_number_of(op) as nat,
        ) + "/"@ + decimal_digits(attempts_allowed_by(op.policy) as nat) + ")"@,
        Goal::Disconnect => "Disconnecting from "@ + op.target + "..."@,
    }
}

/// What is said when an operation for `target` has ended.
pub open spec fn outcome_message(goal: Goal, target: Seq<char>, outcome: OutcomeView) -> Seq<char> {
    match outcome {
        OutcomeView::Connected => "Connected to "@ + target,
        OutcomeView::Disconnected => "Disconnected from "@ + target,
        OutcomeView::Failed(message) => match goal {
            Goal::Connect => "Status error while connecting "@ + target + ": "@ + message,
            Goal::Disconnect => "Disconnect error: "@ + message,
        },
        OutcomeView::TimedOut(attempts) => match goal {
            Goal::Connect => "Failed to connect to "@ + target + " after "@ + decimal_digits(
                attempts as nat,
            ) + " attempts"@,
            Goal::Disconnect => "Timeout while disconnecting "@ + target,
        },
        OutcomeView::Unstable => "Connection to "@ + target + " dropped during stabilization"@,
        OutcomeView::Unexpected => "Unexpected answer to a task of the orchestrator"@,
    }
}

impl Orchestrator {
    /// What this operation is to reach.
    pub fn goal(&self) -> (goal: Goal)
        ensures
            goal == self@.goal,
    {
        self.goal
    }

    /// The profile that this operation is for.
    pub fn target(&self) -> (name: &str)
        ensures
            name@ == self@.target,
    {
        self.target.as_str()
    }

    /// Whether this operation has ended.
    pub fn is_finished(&self) -> (finished: bool)
        ensures
            finished == (self@.stage == Stage::Finished),
    {
        self.stage == Stage::Finished
    }

    /// The number that the attempt at hand has among all attempts, from one.
    pub fn attempt_number(&self) -> (number: u64)
        ensures
            number == attempt_number_of(self@),
    {
        self.attempt as u64 + 1
    }

    /// The number of attempts that the policy allows.
    pub fn attempts_allowed(&self) -> (number: u64)
        ensures
            number == attempts_allowed_by(self@.policy),
    {
        self.policy.max_retries as u64 + 1
    }

    /// The status that is shown for the target while the operation runs: a
    /// connect shows `Connecting` during its first attempt and `Retrying`
    /// with the attempt's number during the later ones.
    pub fn shown_status(&self) -> (status: VpnStatus)
        ensures
            status@ == match self@.goal {
                Goal::Disconnect => StatusView::Disconnecting,
                Goal::Connect => if self@.attempt == 0 {
                    StatusView::Connecting
                } else {
                    StatusView::Retrying(
                        self@.attempt,
                        if self@.policy.max_retries < u32::MAX {
                            (self@.policy.max_retries + 1) as u32
                        } else {
                            u32::MAX
                        },
                    )
                },
            },
    {
        match self.goal {
            Goal::Disconnect => VpnStatus::Disconnecting,
            Goal::Connect => {
                if self.attempt == 0 {
                    VpnStatus::Connecting
                } else {
                    let allowed: u32 = if self.policy.max_retries < u32::MAX {
                        self.policy.max_retries + 1
                    } else {
                        u32::MAX
                    };
                    VpnStatus::Retrying(self.attempt, allowed)
                }
            },
        }
    }

    /// What is said while an attempt runs.
    pub fn announcement(&self) -> (text: String)
        ensures
            text@ == announcement_of(self@),
    {
        match self.goal {
            Goal::Connect => {
                let mut text = String::from_str("Connecting to ");
                text.append(self.target.as_str());
                text.append("... (attempt ");
                push_decimal(&mut text, self.attempt_number());
                text.append("/");
                push_decimal(&mut text, self.attempts_allowed());
                text.append(")");
                text
            },
            Goal::Disconnect => {
                let mut text = String::from_str("Disconnecting from ");
                text.append(self.target.as_str());
                text.append("...");
                text
            },
        }
    }
}

impl Outcome {
    /// Whether the operation reached what it was to reach.
    pub fn is_success(&self) -> (success: bool)
        ensures
            success == (self@ == OutcomeView::Connected || self@ == OutcomeView::Disconnected),
    {
        match self {
            Outcome::Connected => true,
            Outcome::Disconnected => true,
            _ => false,
        }
    }

    /// What is said when an operation for `target` has ended in this way.
    pub fn message(&self, goal: Goal, target: &str) -> (text: String)
        ensures
            text@ == outcome_message(goal, target@, self@),
    {
        match self {
            Outcome::Connected => {
                let mut text = String::from_str("Connected to ");
                text.append(target);
                text
            },
            Outcome::Disconnected => {
                let mut text = String::from_str("Disconnected from ");
                text.append(target);
                text
            },
            Outcome::Failed(message) => match goal {
                Goal::Connect => {
                    let mut text = String::from_str("Status error while connecting ");
                    text.append(target);
                    text.append(": ");
                    text.append(message.as_str());
                    text
                },
                Goal::Disconnect => {
                    let mut text = String::from_str("Disconnect error: ");
                    text.append(message.as_str());
                    text
                },
            },
            Outcome::TimedOut(attempts) => match goal {
                Goal::Connect => {
                    let mut text = String::from_str("Failed to connect to ");
                    text.append(target);
                    text.append(" after ");
                    push_decimal(&mut text, *attempts);
                    text.append(" attempts");
                    text
                },
                Goal::Disconnect => {
                    let mut text = String::from_str("Timeout while disconnecting ");
                    text.append(target);
                    text
                },
            },
            Outcome::Unstable => {
                let mut text = String::from_str("Connection to ");
                text.append(target);
                text.append(" dropped during stabilization");
                text
            },
            Outcome::Unexpected => String::from_str(
                "Unexpected answer to a task of the orchestrator",
            ),
        }
    }
}

} // verus!
