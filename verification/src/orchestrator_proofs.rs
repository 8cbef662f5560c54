//! What holds of every run of an orchestrated operation, whatever the
//! caller reports: how often the controller is run, and what a success
//! rests on.

use crate::controller::other_names;
use crate::orchestrator::{
    orchestrate, orchestrator_idle, shares_a_name, wanted_status, Goal, OrchestratorView,
    OutcomeView, ProgressView, RetryPolicy, Stage, TaskView,
};
use crate::vpn::{ActiveList, StatusView};
use vstd::prelude::*;

verus! {

/// The operation after a run of events.
pub open spec fn orchestrate_run(op: OrchestratorView, events: Seq<ProgressView>) -> OrchestratorView
    decreases events.len(),
{
    if events.len() == 0 {
        op
    } else {
        orchestrate(orchestrate_run(op, events.drop_last()), events.last()).0
    }
}

/// The task that event `i` of a run brings.
pub open spec fn task_at(op: OrchestratorView, events: Seq<ProgressView>, i: int) -> TaskView {
    orchestrate(orchestrate_run(op, events.take(i)), events[i]).1
}

/// How often the first `k` events of a run had the controller run.
pub open spec fn runs_within(op: OrchestratorView, events: Seq<ProgressView>, k: int) -> int
    decreases k,
{
    if k <= 0 {
        0
    } else {
        runs_within(op, events, k - 1) + if task_at(op, events, k - 1) == TaskView::Run {
            1int
        } else {
            0int
        }
    }
}

/// How many of the first `k` events of a run were looks at the new
/// connection.
pub open spec fn looks_within(events: Seq<ProgressView>, k: int) -> int
    decreases k,
{
    if k <= 0 {
        0
    } else {
        looks_within(events, k - 1) + if events[k - 1] is Sampled {
            1int
        } else {
            0int
        }
    }
}

/// Every look among the first `k` events found the target connected.
pub open spec fn looks_found_connected(events: Seq<ProgressView>, k: int) -> bool {
    forall|j: int|
        0 <= j < k && (#[trigger] events[j]) is Sampled ==> events[j]->Sampled_0
            == StatusView::Connected
}

/// Among the first `k` events a poll found the target connected.
pub open spec fn poll_found_connected(events: Seq<ProgressView>, k: int) -> bool {
    exists|j: int|
        0 <= j < k && (#[trigger] events[j]) is Observed && events[j]->Observed_0
            == StatusView::Connected
}

/// What holds after the first `k` events of a run that began with an idle
/// operation.
spec fn orchestrate_invariant(
    goal: Goal,
    target: Seq<char>,
    policy: RetryPolicy,
    events: Seq<ProgressView>,
    k: int,
) -> bool {
    let idle = orchestrator_idle(goal, target, policy);
    let state = orchestrate_run(idle, events.take(k));
    let runs = runs_within(idle, events, k);
    let looks = looks_within(events, k);
    &&& state.goal == goal
    &&& state.target == target
    &&& state.policy == policy
    &&& state.attempt <= policy.max_retries
    &&& match state.stage {
        Stage::Idle => runs == 0 && state.attempt == 0 && looks == 0,
        Stage::Backoff => runs == state.attempt && looks == 0,
        Stage::Running | Stage::Polling | Stage::Sleeping => runs == state.attempt + 1 && looks
            == 0,
        Stage::Resting | Stage::Sampling => {
            &&& runs == state.attempt + 1
            &&& goal == Goal::Connect
            &&& 1 <= state.remaining <= policy.stabilization_samples
            &&& looks == policy.stabilization_samples - state.remaining
            &&& looks_found_connected(events, k)
            &&& poll_found_connected(events, k)
        },
        Stage::Evicting => {
            &&& runs == state.attempt + 1
            &&& goal == Goal::Connect
            &&& state.remaining < policy.stabilization_samples
            &&& looks == policy.stabilization_samples - state.remaining
            &&& looks_found_connected(events, k)
            &&& poll_found_connected(events, k)
        },
        Stage::Finished => runs <= state.attempt + 1,
    }
}

/// A step of a run is a step of the operation from where the run stood.
proof fn lemma_run_unfolds(op: OrchestratorView, events: Seq<ProgressView>, k: int)
    requires
        0 <= k < events.len(),
    ensures
        orchestrate_run(op, events.take(k + 1)) == orchestrate(
            orchestrate_run(op, events.take(k)),
            events[k],
        ).0,
{
    assert(events.take(k + 1).drop_last() =~= events.take(k));
}

/// The invariant holds after every number of events.
proof fn lemma_orchestrate_invariant(
    goal: Goal,
    target: Seq<char>,
    policy: RetryPolicy,
    events: Seq<ProgressView>,
    k: int,
)
    requires
        0 <= k <= events.len(),
    ensures
        orchestrate_invariant(goal, target, policy, events, k),
    decreases k,
{
    let idle = orchestrator_idle(goal, target, policy);
    if k > 0 {
        let j = k - 1;
        lemma_orchestrate_invariant(goal, target, policy, events, j);
        lemma_run_unfolds(idle, events, j);
        assert(looks_found_connected(events, j) && (events[j] is Sampled ==> events[j]->Sampled_0
            == StatusView::Connected) ==> looks_found_connected(events, k));
        assert(poll_found_connected(events, j) ==> poll_found_connected(events, k));
        assert(events[j] is Observed && events[j]->Observed_0 == StatusView::Connected
            ==> poll_found_connected(events, k));
        assert(looks_within(events, j) == 0 ==> looks_found_connected(events, j)) by {
            lemma_no_looks(events, j);
        }
    }
}

/// Where no look was counted, no event was a look.
proof fn lemma_no_looks(events: Seq<ProgressView>, k: int)
    requires
        0 <= k,
    ensures
        looks_within(events, k) >= 0,
        looks_within(events, k) == 0 ==> forall|j: int| 0 <= j < k ==> !((#[trigger] events[j]) is Sampled),
    decreases k,
{
    if k > 0 {
        lemma_no_looks(events, k - 1);
    }
}

/// The controller is run once for the first attempt and once for each
/// retry, and never more often than the policy allows retries.
pub proof fn lemma_attempts_are_bounded(
    goal: Goal,
    target: Seq<char>,
    policy: RetryPolicy,
    events: Seq<ProgressView>,
    k: int,
)
    requires
        0 <= k <= events.len(),
    ensures
        runs_within(orchestrator_idle(goal, target, policy), events, k) <= policy.max_retries + 1,
{
    lemma_orchestrate_invariant(goal, target, policy, events, k);
}

/// A connect is reported as `Connected` only when a poll found the target
/// connected, and when the new connection was then looked at as often as the
/// policy asks, and found connected at every look.
pub proof fn lemma_success_rests_on_observation(
    goal: Goal,
    target: Seq<char>,
    policy: RetryPolicy,
    events: Seq<ProgressView>,
    i: int,
)
    requires
        0 <= i < events.len(),
        task_at(orchestrator_idle(goal, target, policy), events, i) == TaskView::Finish(
            OutcomeView::Connected,
        ),
    ensures
        goal == Goal::Connect,
        poll_found_connected(events, i + 1),
        looks_within(events, i + 1) == policy.stabilization_samples,
        looks_found_connected(events, i + 1),
{
    lemma_orchestrate_invariant(goal, target, policy, events, i);
    lemma_no_looks(events, i);
}

/// A disconnect is reported as `Disconnected` only when a poll found the
/// target disconnected.
pub proof fn lemma_disconnect_rests_on_observation(
    goal: Goal,
    target: Seq<char>,
    policy: RetryPolicy,
    events: Seq<ProgressView>,
    i: int,
)
    requires
        0 <= i < events.len(),
        task_at(orchestrator_idle(goal, target, policy), events, i) == TaskView::Finish(
            OutcomeView::Disconnected,
        ),
    ensures
        goal == Goal::Disconnect,
        events[i] is Observed,
        events[i]->Observed_0 == StatusView::Disconnected,
{
    lemma_orchestrate_invariant(goal, target, policy, events, i);
}

/// An `Error` status is a justified stop: a poll that finds one ends the
/// operation with its message, whatever retries are left and however much
/// time.
pub proof fn lemma_error_status_is_not_retried(
    op: OrchestratorView,
    message: Seq<char>,
    elapsed: u64,
)
    requires
        op.stage == Stage::Polling,
    ensures
        orchestrate(op, ProgressView::Observed(StatusView::Error(message), elapsed)).1
            == TaskView::Finish(OutcomeView::Failed(message)),
        orchestrate(op, ProgressView::Observed(StatusView::Error(message), elapsed)).0.stage
            == Stage::Finished,
{
}

/// A new connection that is seen to be anything but connected while it is
/// watched makes the operation fail as `Unstable`, whatever else is active.
pub proof fn lemma_drop_while_watched_is_unstable(
    op: OrchestratorView,
    status: StatusView,
    active: ActiveList,
)
    requires
        op.stage == Stage::Sampling,
        status != StatusView::Connected,
    ensures
        orchestrate(op, ProgressView::Sampled(status, active)).1 == TaskView::Finish(
            OutcomeView::Unstable,
        ),
{
}

/// A connection that stays up beside the new one although it was taken down
/// makes the operation fail as `Unstable`: a look that finds an active
/// connection that an earlier look had taken down ends the operation.
pub proof fn lemma_returning_intruder_is_unstable(op: OrchestratorView, active: ActiveList)
    requires
        op.stage == Stage::Sampling,
        shares_a_name(other_names(active, op.target), op.evicted),
    ensures
        orchestrate(op, ProgressView::Sampled(StatusView::Connected, active)).1
            == TaskView::Finish(OutcomeView::Unstable),
{
}

/// An attempt whose time is up is over: a poll that finds neither the wanted
/// status nor an `Error` after more than the attempt's time ends the attempt.
/// With a retry left the operation waits for the next attempt; without one it
/// ends as timed out, with the number of attempts made.
pub proof fn lemma_timeout_ends_the_attempt(op: OrchestratorView, status: StatusView, elapsed: u64)
    requires
        op.stage == Stage::Polling,
        status != wanted_status(op.goal),
        !(status is Error),
        elapsed > op.policy.attempt_timeout_ms,
    ensures
        orchestrate(op, ProgressView::Observed(status, elapsed)).1 == if op.attempt
            < op.policy.max_retries {
            TaskView::Wait(op.policy.retry_delay_ms)
        } else {
            TaskView::Finish(OutcomeView::TimedOut((op.attempt + 1) as u64))
        },
{
}

/// How many polls of the attempt at hand were answered within the first
/// `k` events: the answers to a poll since the controller last returned.
pub open spec fn polls_in_attempt(events: Seq<ProgressView>, k: int) -> int
    decreases k,
{
    if k <= 0 {
        0
    } else if events[k - 1] is Returned {
        0
    } else if events[k - 1] is Observed {
        polls_in_attempt(events, k - 1) + 1
    } else {
        polls_in_attempt(events, k - 1)
    }
}

/// The caller's clock keeps pace with its waits: every answer to a poll
/// among the first `k` events reports at least the time that the waits
/// between the earlier polls of its attempt took.
pub open spec fn clock_keeps_pace(events: Seq<ProgressView>, k: int, interval: u64) -> bool {
    forall|j: int|
        0 <= j < k && (#[trigger] events[j]) is Observed ==> events[j]->Observed_1
            >= polls_in_attempt(events, j) * interval
}

/// The bound on the polls of the attempt at hand: the waits between them fit
/// into the attempt's time.
pub open spec fn polls_fit(events: Seq<ProgressView>, k: int, policy: RetryPolicy) -> bool {
    polls_in_attempt(events, k) == 0 || (polls_in_attempt(events, k) - 1)
        * policy.poll_interval_ms <= policy.attempt_timeout_ms
}

/// An operation does not poll for ever. Where the caller's clock keeps pace
/// with its waits, an attempt that is still polling has had no more polls
/// answered than fit into its time, one more at most: with a poll interval
/// above zero these are `attempt_timeout_ms / poll_interval_ms + 1` at most,
/// and the answer to the next poll after that has the attempt end. With
/// `lemma_attempts_are_bounded` this bounds the polls of the whole
/// operation.
pub proof fn lemma_polls_are_bounded(
    goal: Goal,
    target: Seq<char>,
    policy: RetryPolicy,
    events: Seq<ProgressView>,
    k: int,
)
    requires
        0 <= k <= events.len(),
        clock_keeps_pace(events, k, policy.poll_interval_ms),
    ensures
        polls_in_attempt(events, k) >= 0,
        ({
            let state = orchestrate_run(orchestrator_idle(goal, target, policy), events.take(k));
            state.stage == Stage::Polling || state.stage == Stage::Sleeping ==> {
                &&& polls_fit(events, k, policy)
                &&& policy.poll_interval_ms > 0 ==> polls_in_attempt(events, k)
                    <= policy.attempt_timeout_ms / policy.poll_interval_ms + 1
            }
        }),
    decreases k,
{
    let idle = orchestrator_idle(goal, target, policy);
    if k > 0 {
        let j = k - 1;
        lemma_polls_are_bounded(goal, target, policy, events, j);
        lemma_orchestrate_invariant(goal, target, policy, events, j);
        lemma_run_unfolds(idle, events, j);
        let before = orchestrate_run(idle, events.take(j));
        let after = orchestrate_run(idle, events.take(k));
        if after.stage == Stage::Polling || after.stage == Stage::Sleeping {
            if events[j] is Observed {
                assert(before.stage == Stage::Polling);
                assert(events[j]->Observed_1 <= policy.attempt_timeout_ms);
                assert(events[j]->Observed_1 >= polls_in_attempt(events, j)
                    * policy.poll_interval_ms);
                assert(polls_in_attempt(events, k) - 1 == polls_in_attempt(events, j));
            }
        }
    }
    let polls = polls_in_attempt(events, k);
    let interval = policy.poll_interval_ms as int;
    let timeout = policy.attempt_timeout_ms as int;
    if interval > 0 && polls > 0 && (polls - 1) * interval <= timeout {
        vstd::arithmetic::div_mod::lemma_div_multiples_vanish(polls - 1, interval);
        vstd::arithmetic::div_mod::lemma_div_is_ordered((polls - 1) * interval, timeout, interval);
    }
}

/// The answer to a poll that comes after the attempt's time, as a clock
/// that keeps pace reports it once more polls were answered than fit, never
/// has the attempt poll on.
pub proof fn lemma_late_poll_ends_polling(op: OrchestratorView, status: StatusView, elapsed: u64)
    requires
        op.stage == Stage::Polling,
        elapsed > op.policy.attempt_timeout_ms,
    ensures
        orchestrate(op, ProgressView::Observed(status, elapsed)).0.stage != Stage::Polling,
        orchestrate(op, ProgressView::Observed(status, elapsed)).0.stage != Stage::Sleeping,
{
}

} // verus!
