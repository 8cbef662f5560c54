//! What holds of every run of a connect, whatever the control surface
//! answers: the order in which connections are taken down and brought up.

use crate::controller::{
    connect_advance, connect_idle, connect_step, disconnect_step, other_names, ConnectView,
    DisconnectView, ErrorView, EventView, PhaseView, RequestView,
};
use crate::controller::{disconnect_idle, DisconnectPhase};
use crate::vpn::{
    all_settled, fresh_record, lemma_writes_keep_settled, lemma_writes_keep_well_formed,
    record_in, status_in, well_formed, ActiveList, StatusView, StoreView,
};
use vstd::prelude::*;

verus! {

/// The cache and the operation after a run: each step is an event and the
/// moment at which it reached the operation.
pub open spec fn connect_run(store: StoreView, op: ConnectView, steps: Seq<(EventView, i64)>) -> (
    StoreView,
    ConnectView,
)
    decreases steps.len(),
{
    if steps.len() == 0 {
        (store, op)
    } else {
        let before = connect_run(store, op, steps.drop_last());
        let after = connect_step(before.0, before.1, steps.last().0, steps.last().1);
        (after.0, after.1)
    }
}

/// The request that step `i` of a run brings.
pub open spec fn connect_request_at(
    store: StoreView,
    op: ConnectView,
    steps: Seq<(EventView, i64)>,
    i: int,
) -> RequestView {
    let before = connect_run(store, op, steps.take(i));
    connect_step(before.0, before.1, steps[i].0, steps[i].1).2
}

/// Within the first `k` steps of a run the operation asked for the state of
/// `name` and was answered `Disconnected`.
pub open spec fn seen_down(
    store: StoreView,
    op: ConnectView,
    steps: Seq<(EventView, i64)>,
    name: Seq<char>,
    k: int,
) -> bool {
    exists|j: int|
        0 <= j && j + 1 < k && j + 1 < steps.len() && #[trigger] connect_request_at(
            store,
            op,
            steps,
            j,
        ) == RequestView::QueryStatus(name) && steps[j + 1].0 == EventView::Status(
            StatusView::Disconnected,
        )
}

/// The connections that a run found active beside its target: what its
/// second step listed.
pub open spec fn conflicts_of(steps: Seq<(EventView, i64)>, target: Seq<char>) -> Seq<Seq<char>> {
    other_names(steps[1].0->Active_0, target)
}

/// The target's record is as it was before the run.
pub open spec fn target_untouched(store: StoreView, now: StoreView, target: Seq<char>) -> bool {
    &&& now.contains_key(target) == store.contains_key(target)
    &&& now.contains_key(target) ==> now[target] == store[target]
}

/// The run is taking down `current`, one of the conflicts: all conflicts
/// before it were seen down, and those after it are still pending.
spec fn taking_down(
    store: StoreView,
    target: Seq<char>,
    steps: Seq<(EventView, i64)>,
    current: Seq<char>,
    pending: Seq<Seq<char>>,
    k: int,
) -> bool {
    &&& k >= 2
    &&& steps[1].0 is Active
    &&& current != target
    &&& exists|m: int|
        {
            &&& 0 <= m < conflicts_of(steps, target).len()
            &&& #[trigger] conflicts_of(steps, target)[m] == current
            &&& pending == conflicts_of(steps, target).skip(m + 1)
            &&& forall|n: int|
                0 <= n < m ==> seen_down(
                    store,
                    connect_idle(target),
                    steps,
                    #[trigger] conflicts_of(steps, target)[n],
                    k,
                )
        }
}

/// What holds after the first `k` steps of a run that began with an idle
/// operation.
spec fn connect_invariant(
    store: StoreView,
    target: Seq<char>,
    steps: Seq<(EventView, i64)>,
    k: int,
) -> bool {
    let state = connect_run(store, connect_idle(target), steps.take(k));
    &&& state.1.target == target
    &&& match state.1.phase {
        PhaseView::Idle => k == 0 && state.0 == store,
        PhaseView::Listing => k == 1 && state.0 == store,
        PhaseView::HangingUp(current) => taking_down(
            store,
            target,
            steps,
            current,
            state.1.pending,
            k,
        ) && target_untouched(store, state.0, target),
        PhaseView::Settling(current) => taking_down(
            store,
            target,
            steps,
            current,
            state.1.pending,
            k,
        ) && target_untouched(store, state.0, target),
        PhaseView::Pausing(current, _) => taking_down(
            store,
            target,
            steps,
            current,
            state.1.pending,
            k,
        ) && target_untouched(store, state.0, target),
        PhaseView::Confirming(current, _) => {
            &&& taking_down(store, target, steps, current, state.1.pending, k)
            &&& target_untouched(store, state.0, target)
            &&& connect_request_at(store, connect_idle(target), steps, k - 1)
                == RequestView::QueryStatus(current)
        },
        PhaseView::Dialing => {
            &&& k >= 2
            &&& steps[1].0 is Active
            &&& state.0.contains_key(target)
            &&& state.0[target] == fresh_record(target, StatusView::Connecting)
            &&& forall|n: int|
                0 <= n < conflicts_of(steps, target).len() ==> seen_down(
                    store,
                    connect_idle(target),
                    steps,
                    #[trigger] conflicts_of(steps, target)[n],
                    k,
                )
        },
        PhaseView::Finished => true,
    }
}

/// None of the other names is the target.
pub proof fn lemma_other_names_differ(active: ActiveList, target: Seq<char>)
    ensures
        forall|m: int|
            0 <= m < other_names(active, target).len() ==> #[trigger] other_names(
                active,
                target,
            )[m] != target,
    decreases active.len(),
{
    if active.len() > 0 {
        lemma_other_names_differ(active.drop_last(), target);
        let kept = other_names(active.drop_last(), target);
        let all = other_names(active, target);
        assert(all == if active.last().0 != target {
            kept.push(active.last().0)
        } else {
            kept
        });
    }
}

/// A step of a run is a step of the operation from where the run stood.
proof fn lemma_run_unfolds(
    store: StoreView,
    op: ConnectView,
    steps: Seq<(EventView, i64)>,
    k: int,
)
    requires
        0 <= k < steps.len(),
    ensures
        connect_run(store, op, steps.take(k + 1)) == ({
            let before = connect_run(store, op, steps.take(k));
            let after = connect_step(before.0, before.1, steps[k].0, steps[k].1);
            (after.0, after.1)
        }),
{
    assert(steps.take(k + 1).drop_last() =~= steps.take(k));
}

/// What was seen down within `k` steps was seen down within more.
proof fn lemma_seen_down_stays(
    store: StoreView,
    op: ConnectView,
    steps: Seq<(EventView, i64)>,
    name: Seq<char>,
    k: int,
)
    requires
        seen_down(store, op, steps, name, k),
    ensures
        seen_down(store, op, steps, name, k + 1),
{
    let j = choose|j: int|
        0 <= j && j + 1 < k && j + 1 < steps.len() && #[trigger] connect_request_at(
            store,
            op,
            steps,
            j,
        ) == RequestView::QueryStatus(name) && steps[j + 1].0 == EventView::Status(
            StatusView::Disconnected,
        );
}

/// The run goes on taking down the same connection.
proof fn lemma_taking_down_stays(
    store: StoreView,
    target: Seq<char>,
    steps: Seq<(EventView, i64)>,
    current: Seq<char>,
    pending: Seq<Seq<char>>,
    k: int,
)
    requires
        taking_down(store, target, steps, current, pending, k),
    ensures
        taking_down(store, target, steps, current, pending, k + 1),
{
    let all = conflicts_of(steps, target);
    let m = choose|m: int|
        {
            &&& 0 <= m < all.len()
            &&& #[trigger] all[m] == current
            &&& pending == all.skip(m + 1)
            &&& forall|n: int|
                0 <= n < m ==> seen_down(store, connect_idle(target), steps, #[trigger] all[n], k)
        };
    assert forall|n: int| 0 <= n < m implies seen_down(
        store,
        connect_idle(target),
        steps,
        #[trigger] all[n],
        k + 1,
    ) by {
        lemma_seen_down_stays(store, connect_idle(target), steps, all[n], k);
    }
}

/// The run turns to the next conflict, or to the target: the first `m`
/// conflicts are seen down and the others are pending.
proof fn lemma_advance_keeps_invariant(
    store: StoreView,
    target: Seq<char>,
    steps: Seq<(EventView, i64)>,
    j: int,
    m: int,
    before: (StoreView, ConnectView),
)
    requires
        1 <= j < steps.len(),
        steps[1].0 is Active,
        0 <= m <= conflicts_of(steps, target).len(),
        before.1.target == target,
        before.1.pending == conflicts_of(steps, target).skip(m),
        target_untouched(store, before.0, target),
        forall|n: int|
            0 <= n < m ==> seen_down(
                store,
                connect_idle(target),
                steps,
                #[trigger] conflicts_of(steps, target)[n],
                j + 1,
            ),
        connect_run(store, connect_idle(target), steps.take(j + 1)) == ({
            let after = connect_advance(before.0, before.1);
            (after.0, after.1)
        }),
    ensures
        connect_invariant(store, target, steps, j + 1),
{
    let all = conflicts_of(steps, target);
    lemma_other_names_differ(steps[1].0->Active_0, target);
    if before.1.pending.len() > 0 {
        assert(before.1.pending.drop_first() =~= all.skip(m + 1));
    }
}

/// The invariant holds after every number of steps.
proof fn lemma_connect_invariant(
    store: StoreView,
    target: Seq<char>,
    steps: Seq<(EventView, i64)>,
    k: int,
)
    requires
        0 <= k <= steps.len(),
    ensures
        connect_invariant(store, target, steps, k),
    decreases k,
{
    let idle = connect_idle(target);
    if k > 0 {
        let j = k - 1;
        lemma_connect_invariant(store, target, steps, j);
        lemma_run_unfolds(store, idle, steps, j);
        let before = connect_run(store, idle, steps.take(j));
        match (before.1.phase, steps[j].0) {
            (PhaseView::Listing, EventView::Active(active)) => {
                let listed = ConnectView { pending: other_names(active, target), ..before.1 };
                assert(conflicts_of(steps, target).skip(0) =~= conflicts_of(steps, target));
                lemma_advance_keeps_invariant(store, target, steps, j, 0, (before.0, listed));
            },
            (PhaseView::HangingUp(name), EventView::Actuator(_)) => {
                lemma_taking_down_stays(store, target, steps, name, before.1.pending, j);
            },
            (PhaseView::Settling(name), EventView::Waited) => {
                lemma_taking_down_stays(store, target, steps, name, before.1.pending, j);
            },
            (PhaseView::Confirming(name, _), EventView::Status(status)) => {
                lemma_taking_down_stays(store, target, steps, name, before.1.pending, j);
                if status == StatusView::Disconnected {
                    let all = conflicts_of(steps, target);
                    let m = choose|m: int|
                        {
                            &&& 0 <= m < all.len()
                            &&& #[trigger] all[m] == name
                            &&& before.1.pending == all.skip(m + 1)
                            &&& forall|n: int|
                                0 <= n < m ==> seen_down(
                                    store,
                                    idle,
                                    steps,
                                    #[trigger] all[n],
                                    j,
                                )
                        };
                    assert(connect_request_at(store, idle, steps, j - 1)
                        == RequestView::QueryStatus(name));
                    assert forall|n: int| 0 <= n < m + 1 implies seen_down(
                        store,
                        idle,
                        steps,
                        #[trigger] all[n],
                        k,
                    ) by {
                        if n < m {
                            lemma_seen_down_stays(store, idle, steps, all[n], j);
                        }
                    }
                    lemma_advance_keeps_invariant(store, target, steps, j, m + 1, before);
                }
            },
            (PhaseView::Pausing(name, _), EventView::Waited) => {
                lemma_taking_down_stays(store, target, steps, name, before.1.pending, j);
            },
            _ => {},
        }
    }
}

/// Two connections are never asked to be up at once. When a run asks for
/// its target to be brought up, the run began by listing the active
/// connections; every connection that it found active beside the target was
/// asked for its state and answered `Disconnected` before; and until that
/// moment nothing was written to the target's record.
pub proof fn lemma_connect_waits_for_conflicts(
    store: StoreView,
    target: Seq<char>,
    steps: Seq<(EventView, i64)>,
    i: int,
)
    requires
        0 <= i < steps.len(),
        connect_request_at(store, connect_idle(target), steps, i) == RequestView::Connect,
    ensures
        i >= 1,
        steps[0].0 == EventView::Start,
        steps[1].0 is Active,
        forall|n: int|
            0 <= n < conflicts_of(steps, target).len() ==> seen_down(
                store,
                connect_idle(target),
                steps,
                #[trigger] conflicts_of(steps, target)[n],
                i + 1,
            ),
        target_untouched(store, connect_run(store, connect_idle(target), steps.take(i)).0, target),
{
    let idle = connect_idle(target);
    lemma_connect_invariant(store, target, steps, i);
    lemma_connect_invariant(store, target, steps, i + 1);
    lemma_run_unfolds(store, idle, steps, i);
    lemma_listing_follows_start(store, target, steps, i);
}

/// A run that has left its first phase began with `Start`.
proof fn lemma_listing_follows_start(
    store: StoreView,
    target: Seq<char>,
    steps: Seq<(EventView, i64)>,
    k: int,
)
    requires
        1 <= k <= steps.len(),
        connect_run(store, connect_idle(target), steps.take(k)).1.phase != PhaseView::Finished,
    ensures
        steps[0].0 == EventView::Start,
    decreases k,
{
    let idle = connect_idle(target);
    lemma_run_unfolds(store, idle, steps, k - 1);
    if k > 1 {
        lemma_listing_follows_start(store, target, steps, k - 1);
    }
}

/// A run that has asked for its target stays with it: from then on it is
/// dialing or has ended.
pub proof fn lemma_dialing_is_final(
    store: StoreView,
    target: Seq<char>,
    steps: Seq<(EventView, i64)>,
    j: int,
    k: int,
)
    requires
        0 <= j <= k <= steps.len(),
        connect_run(store, connect_idle(target), steps.take(j)).1.phase == PhaseView::Dialing
            || connect_run(store, connect_idle(target), steps.take(j)).1.phase
            == PhaseView::Finished,
    ensures
        connect_run(store, connect_idle(target), steps.take(k)).1.phase == PhaseView::Finished || (
        k == j && connect_run(store, connect_idle(target), steps.take(k)).1.phase
            == PhaseView::Dialing),
    decreases k - j,
{
    if j < k {
        lemma_dialing_is_final(store, target, steps, j, k - 1);
        lemma_run_unfolds(store, connect_idle(target), steps, k - 1);
    }
}

/// A run asks for its target once at most.
pub proof fn lemma_connect_asked_once(
    store: StoreView,
    target: Seq<char>,
    steps: Seq<(EventView, i64)>,
    i: int,
    j: int,
)
    requires
        0 <= i < steps.len(),
        0 <= j < steps.len(),
        connect_request_at(store, connect_idle(target), steps, i) == RequestView::Connect,
        connect_request_at(store, connect_idle(target), steps, j) == RequestView::Connect,
    ensures
        i == j,
{
    let idle = connect_idle(target);
    lemma_run_unfolds(store, idle, steps, i);
    lemma_run_unfolds(store, idle, steps, j);
    if i < j {
        lemma_dialing_is_final(store, target, steps, i + 1, j);
    } else if j < i {
        lemma_dialing_is_final(store, target, steps, j + 1, i);
    }
}

/// A run that gives up over a conflict never asked for its target.
pub proof fn lemma_conflict_prevents_connect(
    store: StoreView,
    target: Seq<char>,
    steps: Seq<(EventView, i64)>,
    i: int,
    j: int,
    name: Seq<char>,
)
    requires
        0 <= j < i < steps.len(),
        connect_request_at(store, connect_idle(target), steps, i) == RequestView::Done(
            Err(ErrorView::Conflict(name)),
        ),
    ensures
        connect_request_at(store, connect_idle(target), steps, j) != RequestView::Connect,
{
    let idle = connect_idle(target);
    lemma_run_unfolds(store, idle, steps, j);
    if connect_request_at(store, idle, steps, j) == RequestView::Connect {
        lemma_dialing_is_final(store, target, steps, j + 1, i);
    }
}

/// A connect that ends well has recorded it: the target is `Connected` since
/// the moment at which the answer of the actuator came, and its record is
/// otherwise a fresh one.
pub proof fn lemma_connect_success_is_recorded(
    store: StoreView,
    target: Seq<char>,
    steps: Seq<(EventView, i64)>,
    i: int,
)
    requires
        0 <= i < steps.len(),
        connect_request_at(store, connect_idle(target), steps, i) == RequestView::Done(Ok(())),
    ensures
        record_in(connect_run(store, connect_idle(target), steps.take(i + 1)).0, target)
            == fresh_record(target, StatusView::Connected).connected_at(steps[i].1),
{
    lemma_connect_invariant(store, target, steps, i);
    lemma_run_unfolds(store, connect_idle(target), steps, i);
}

/// A connect that ends well took every other active connection down first:
/// each connection that the run found active beside its target was asked for
/// its state and answered `Disconnected` before the target was asked for, in
/// the step just before the last.
pub proof fn lemma_connect_success_means_conflicts_went_down(
    store: StoreView,
    target: Seq<char>,
    steps: Seq<(EventView, i64)>,
    i: int,
)
    requires
        0 <= i < steps.len(),
        connect_request_at(store, connect_idle(target), steps, i) == RequestView::Done(Ok(())),
    ensures
        i >= 2,
        steps[1].0 is Active,
        connect_request_at(store, connect_idle(target), steps, i - 1) == RequestView::Connect,
        forall|n: int|
            0 <= n < conflicts_of(steps, target).len() ==> seen_down(
                store,
                connect_idle(target),
                steps,
                #[trigger] conflicts_of(steps, target)[n],
                i,
            ),
{
    let idle = connect_idle(target);
    lemma_connect_invariant(store, target, steps, i);
    lemma_connect_invariant(store, target, steps, i - 1);
    lemma_run_unfolds(store, idle, steps, i);
    lemma_run_unfolds(store, idle, steps, i - 1);
}

/// A connect whose request the actuator refused has recorded it: the target
/// is in `Error` with the actuator's message.
pub proof fn lemma_connect_failure_is_recorded(
    store: StoreView,
    target: Seq<char>,
    steps: Seq<(EventView, i64)>,
    i: int,
    message: Seq<char>,
)
    requires
        0 <= i < steps.len(),
        connect_request_at(store, connect_idle(target), steps, i) == RequestView::Done(
            Err(ErrorView::Actuator(message)),
        ),
    ensures
        status_in(connect_run(store, connect_idle(target), steps.take(i + 1)).0, target)
            == StatusView::Error(message),
{
    lemma_connect_invariant(store, target, steps, i);
    lemma_run_unfolds(store, connect_idle(target), steps, i);
}

/// A connect that gives up over a conflict, or that could not list the
/// active connections, has written nothing to the target's record.
pub proof fn lemma_aborted_connect_leaves_target(
    store: StoreView,
    target: Seq<char>,
    steps: Seq<(EventView, i64)>,
    i: int,
)
    requires
        0 <= i < steps.len(),
        connect_request_at(store, connect_idle(target), steps, i) matches RequestView::Done(
            Err(error),
        ) && (error is Conflict || error is Probe),
    ensures
        target_untouched(
            store,
            connect_run(store, connect_idle(target), steps.take(i + 1)).0,
            target,
        ),
{
    lemma_connect_invariant(store, target, steps, i);
    lemma_run_unfolds(store, connect_idle(target), steps, i);
}

/// Every step of a connect keeps the cache well formed.
pub proof fn lemma_connect_step_keeps_well_formed(
    store: StoreView,
    op: ConnectView,
    event: EventView,
    now: i64,
)
    requires
        well_formed(store),
    ensures
        well_formed(connect_step(store, op, event, now).0),
{
    let none = Seq::<Seq<char>>::empty();
    let nothing = Seq::<(Seq<char>, Option<Seq<char>>)>::empty();
    lemma_writes_keep_well_formed(store, op.target, StatusView::Disconnected, none, nothing, now);
    match (op.phase, event) {
        (PhaseView::Listing, EventView::Active(active)) => {
            let listed = ConnectView { pending: other_names(active, op.target), ..op };
            if listed.pending.len() > 0 {
                lemma_writes_keep_well_formed(
                    store,
                    listed.pending[0],
                    StatusView::Disconnecting,
                    none,
                    nothing,
                    now,
                );
            }
        },
        (PhaseView::HangingUp(name), EventView::Actuator(answer)) => {
            lemma_writes_keep_well_formed(
                store,
                name,
                match answer {
                    Ok(_) => StatusView::Disconnected,
                    Err(message) => StatusView::Error(message),
                },
                none,
                nothing,
                now,
            );
        },
        (PhaseView::Confirming(_, _), EventView::Status(_)) => {
            if op.pending.len() > 0 {
                lemma_writes_keep_well_formed(
                    store,
                    op.pending[0],
                    StatusView::Disconnecting,
                    none,
                    nothing,
                    now,
                );
            }
        },
        (PhaseView::Dialing, EventView::Actuator(Err(message))) => {
            lemma_writes_keep_well_formed(
                store,
                op.target,
                StatusView::Error(message),
                none,
                nothing,
                now,
            );
        },
        _ => {},
    }
}

/// Every step of a disconnect keeps the cache well formed.
pub proof fn lemma_disconnect_step_keeps_well_formed(
    store: StoreView,
    op: DisconnectView,
    event: EventView,
)
    requires
        well_formed(store),
    ensures
        well_formed(disconnect_step(store, op, event).0),
{
    let none = Seq::<Seq<char>>::empty();
    let nothing = Seq::<(Seq<char>, Option<Seq<char>>)>::empty();
    lemma_writes_keep_well_formed(store, op.target, StatusView::Disconnecting, none, nothing, 0);
    lemma_writes_keep_well_formed(store, op.target, StatusView::Disconnected, none, nothing, 0);
    match event {
        EventView::Actuator(Err(message)) => {
            lemma_writes_keep_well_formed(
                store,
                op.target,
                StatusView::Error(message),
                none,
                nothing,
                0,
            );
        },
        _ => {},
    }
}

/// Every step of a connect and of a disconnect keeps every record settled.
pub proof fn lemma_steps_keep_settled(
    store: StoreView,
    connect: ConnectView,
    disconnect: DisconnectView,
    event: EventView,
    now: i64,
)
    requires
        all_settled(store),
    ensures
        all_settled(connect_step(store, connect, event, now).0),
        all_settled(disconnect_step(store, disconnect, event).0),
{
    let none = Seq::<Seq<char>>::empty();
    lemma_writes_keep_settled(store, connect.target, StatusView::Disconnected, none, now);
    lemma_writes_keep_settled(store, disconnect.target, StatusView::Disconnected, none, now);
}

/// A disconnect that the actuator refused is recorded, whether the profile
/// had a record or not: the operation asks for the profile to be brought
/// down, and when that fails with a message, it ends with that message, the
/// profile is in `Error` with it, and every other profile is as it was.
pub proof fn lemma_failed_disconnect_is_recorded(
    store: StoreView,
    target: Seq<char>,
    message: Seq<char>,
    other: Seq<char>,
)
    ensures
        ({
            let asked = disconnect_step(store, disconnect_idle(target), EventView::Start);
            let ended = disconnect_step(asked.0, asked.1, EventView::Actuator(Err(message)));
            &&& asked.2 == RequestView::Disconnect(target)
            &&& status_in(asked.0, target) == StatusView::Disconnecting
            &&& ended.2 == RequestView::Done(Err(ErrorView::Actuator(message)))
            &&& ended.1.phase == DisconnectPhase::Finished
            &&& ended.0.contains_key(target)
            &&& status_in(ended.0, target) == StatusView::Error(message)
            &&& record_in(ended.0, target).connected_since is None
            &&& record_in(ended.0, target).ip_address is None
            &&& other != target ==> ended.0.contains_key(other) == store.contains_key(other)
                && record_in(ended.0, other) == record_in(store, other)
        }),
{
}

/// A disconnect that went well is recorded: the profile is `Disconnected`,
/// without connection time or address, and every other profile is as it was.
pub proof fn lemma_disconnect_is_recorded(store: StoreView, target: Seq<char>, other: Seq<char>)
    ensures
        ({
            let asked = disconnect_step(store, disconnect_idle(target), EventView::Start);
            let ended = disconnect_step(asked.0, asked.1, EventView::Actuator(Ok(())));
            &&& ended.2 == RequestView::Done(Ok(()))
            &&& ended.0.contains_key(target)
            &&& status_in(ended.0, target) == StatusView::Disconnected
            &&& record_in(ended.0, target).connected_since is None
            &&& record_in(ended.0, target).ip_address is None
            &&& other != target ==> ended.0.contains_key(other) == store.contains_key(other)
                && record_in(ended.0, other) == record_in(store, other)
        }),
{
}

} // verus!
