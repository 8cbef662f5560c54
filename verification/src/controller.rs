//! The connection controller: one connect or one disconnect, step by step.
//!
//! The controller never talks to the control surface itself. It is a state
//! machine: it is handed what the last request brought, writes to the cache
//! what follows from it, and names the next request. The caller carries the
//! requests out, and holds no lock on the cache while it does.
//!
//! A connect first takes down every other connection that the control
//! surface reports active, and asks for the new connection only when each of
//! them was seen to be down: two connections are never asked to be up at
//! once.

use crate::text::{filter_map, same_text};
use crate::vpn::{
    all_settled, clock_millis, store_begin, store_connected, store_write, well_formed,
    ActiveList, StatusView, StoreView, VpnManager, VpnStatus,
};
use vstd::prelude::*;

verus! {

/// How long a connection is left alone after it was asked to go down, in
/// milliseconds, before its state is asked for.
pub const SETTLE_DELAY_MS: u64 = 800;

/// The time between two questions for the state of a connection that is
/// going down, in milliseconds.
pub const CONFIRM_INTERVAL_MS: u64 = 200;

/// How often the state of a connection that is going down is asked for
/// before the connect is given up.
pub const CONFIRM_POLLS: u32 = 40;

/// Why an operation of the controller failed.
#[derive(Debug, PartialEq)]
pub enum VpnError {
    /// The active connections could not be listed; the reason is attached.
    /// Nothing was asked of the control surface and nothing was written.
    Probe(String),
    /// The named connection was active and was not seen to go down in time.
    /// The new connection was not asked for.
    Conflict(String),
    /// The command of the actuator failed; its message is attached.
    Actuator(String),
    /// The operation was handed something that answers none of its requests.
    Unexpected,
}

/// The mathematical value of a [`VpnError`].
pub enum ErrorView {
    Probe(Seq<char>),
    Conflict(Seq<char>),
    Actuator(Seq<char>),
    Unexpected,
}

impl View for VpnError {
    type V = ErrorView;

    open spec fn view(&self) -> ErrorView {
        match self {
            VpnError::Probe(reason) => ErrorView::Probe(reason@),
            VpnError::Conflict(name) => ErrorView::Conflict(name@),
            VpnError::Actuator(message) => ErrorView::Actuator(message@),
            VpnError::Unexpected => ErrorView::Unexpected,
        }
    }
}

/// The text that tells a user of an error.
pub open spec fn error_message(error: ErrorView) -> Seq<char> {
    match error {
        ErrorView::Probe(reason) => reason,
        ErrorView::Conflict(name) => "Failed to disconnect previous VPN: "@ + name
            + ". Current state still not Disconnected."@,
        ErrorView::Actuator(message) => message,
        ErrorView::Unexpected => "Unexpected answer to a request of the controller"@,
    }
}

impl VpnError {
    /// The text that tells a user of this error.
    pub fn message(&self) -> (text: String)
        ensures
            text@ == error_message(self@),
    {
        match self {
            VpnError::Probe(reason) => reason.clone(),
            VpnError::Conflict(name) => {
                let mut text = String::from_str("Failed to disconnect previous VPN: ");
                text.append(name.as_str());
                text.append(". Current state still not Disconnected.");
                text
            },
            VpnError::Actuator(message) => message.clone(),
            VpnError::Unexpected => String::from_str(
                "Unexpected answer to a request of the controller",
            ),
        }
    }
}

/// What the caller is to do for an operation next.
#[derive(Debug, PartialEq)]
pub enum ControlRequest {
    /// List the active connections; answer with `Active` or `ProbeFailed`.
    ListActive,
    /// Ask the actuator to bring the named connection down; answer with
    /// `Actuator`.
    Disconnect(String),
    /// Ask the actuator to bring the operation's own connection up; answer
    /// with `Actuator`.
    Connect,
    /// Let this many milliseconds pass; answer with `Waited`.
    Wait(u64),
    /// Ask the probe for the state of the named connection; answer with
    /// `Status`.
    QueryStatus(String),
    /// Nothing more: the operation has ended, in this way.
    Done(Result<(), VpnError>),
}

/// The mathematical value of a [`ControlRequest`].
pub enum RequestView {
    ListActive,
    Disconnect(Seq<char>),
    Connect,
    Wait(u64),
    QueryStatus(Seq<char>),
    Done(Result<(), ErrorView>),
}

impl View for ControlRequest {
    type V = RequestView;

    open spec fn view(&self) -> RequestView {
        match self {
            ControlRequest::ListActive => RequestView::ListActive,
            ControlRequest::Disconnect(name) => RequestView::Disconnect(name@),
            ControlRequest::Connect => RequestView::Connect,
            ControlRequest::Wait(millis) => RequestView::Wait(*millis),
            ControlRequest::QueryStatus(name) => RequestView::QueryStatus(name@),
            ControlRequest::Done(Ok(_)) => RequestView::Done(Ok(())),
            ControlRequest::Done(Err(error)) => RequestView::Done(Err(error@)),
        }
    }
}

/// What the last request of an operation brought.
#[derive(Debug, PartialEq)]
pub enum ControlEvent {
    /// Nothing yet: the operation is to begin.
    Start,
    /// The active connections, each with its address where known.
    Active(Vec<(String, Option<String>)>),
    /// The active connections could not be listed, for this reason.
    ProbeFailed(String),
    /// The actuator's command ended: well, or with its message.
    Actuator(Result<(), String>),
    /// The time asked for has passed.
    Waited,
    /// The probe's answer on the state of a connection.
    Status(VpnStatus),
}

/// The mathematical value of a [`ControlEvent`].
pub enum EventView {
    Start,
    Active(ActiveList),
    ProbeFailed(Seq<char>),
    Actuator(Result<(), Seq<char>>),
    Waited,
    Status(StatusView),
}

impl View for ControlEvent {
    type V = EventView;

    open spec fn view(&self) -> EventView {
        match self {
            ControlEvent::Start => EventView::Start,
            ControlEvent::Active(list) => EventView::Active(list.deep_view()),
            ControlEvent::ProbeFailed(reason) => EventView::ProbeFailed(reason@),
            ControlEvent::Actuator(Ok(_)) => EventView::Actuator(Ok(())),
            ControlEvent::Actuator(Err(message)) => EventView::Actuator(Err(message@)),
            ControlEvent::Waited => EventView::Waited,
            ControlEvent::Status(status) => EventView::Status(status@),
        }
    }
}

/// Where a connect stands.
#[derive(Debug, PartialEq)]
pub enum ConnectPhase {
    /// Not begun.
    Idle,
    /// The active connections were asked for.
    Listing,
    /// The named connection was asked to go down.
    HangingUp(String),
    /// The named connection is left alone for a moment.
    Settling(String),
    /// The state of the named connection was asked for; this many answers
    /// came before and found it not yet down.
    Confirming(String, u32),
    /// The named connection was found not yet down this many times, and is
    /// left alone until the next question.
    Pausing(String, u32),
    /// The operation's own connection was asked to come up.
    Dialing,
    /// Ended.
    Finished,
}

/// The mathematical value of a [`ConnectPhase`].
pub enum PhaseView {
    Idle,
    Listing,
    HangingUp(Seq<char>),
    Settling(Seq<char>),
    Confirming(Seq<char>, u32),
    Pausing(Seq<char>, u32),
    Dialing,
    Finished,
}

impl View for ConnectPhase {
    type V = PhaseView;

    open spec fn view(&self) -> PhaseView {
        match self {
            ConnectPhase::Idle => PhaseView::Idle,
            ConnectPhase::Listing => PhaseView::Listing,
            ConnectPhase::HangingUp(name) => PhaseView::HangingUp(name@),
            ConnectPhase::Settling(name) => PhaseView::Settling(name@),
            ConnectPhase::Confirming(name, asked) => PhaseView::Confirming(name@, *asked),
            ConnectPhase::Pausing(name, asked) => PhaseView::Pausing(name@, *asked),
            ConnectPhase::Dialing => PhaseView::Dialing,
            ConnectPhase::Finished => PhaseView::Finished,
        }
    }
}

/// One connect of one profile, as far as it has come.
#[derive(Debug)]
pub struct ConnectOperation {
    target: String,
    phase: ConnectPhase,
    pending: Vec<String>,
}

/// The mathematical value of a [`ConnectOperation`]: the profile to connect,
/// where the operation stands, and the other active connections that are
/// still to be taken down after the one at hand.
pub struct ConnectView {
    pub target: Seq<char>,
    pub phase: PhaseView,
    pub pending: Seq<Seq<char>>,
}

impl View for ConnectOperation {
    type V = ConnectView;

    closed spec fn view(&self) -> ConnectView {
        ConnectView { target: self.target@, phase: self.phase@, pending: self.pending.deep_view() }
    }
}

/// A connect of `target` that has not begun.
pub open spec fn connect_idle(target: Seq<char>) -> ConnectView {
    ConnectView { target, phase: PhaseView::Idle, pending: Seq::empty() }
}

/// The names in `active` other than `target`, in the order of the list.
pub open spec fn other_names(active: ActiveList, target: Seq<char>) -> Seq<Seq<char>> {
    filter_map(
        active,
        |entry: (Seq<char>, Option<Seq<char>>)|
            if entry.0 != target {
                Some(entry.0)
            } else {
                None::<Seq<char>>
            },
    )
}

/// One more answer that found a connection not yet down, counted no further
/// than the number of questions allowed.
pub open spec fn one_more(asked: u32) -> u32 {
    if asked < CONFIRM_POLLS {
        (asked + 1) as u32
    } else {
        asked
    }
}

/// A connect that ends here with `error`.
pub open spec fn connect_fails(store: StoreView, op: ConnectView, error: ErrorView) -> (
    StoreView,
    ConnectView,
    RequestView,
) {
    (store, ConnectView { phase: PhaseView::Finished, ..op }, RequestView::Done(Err(error)))
}

/// What a connect does once no connection is at hand: it turns to the next
/// connection that is to go down, marks it `Disconnecting` and asks for it to
/// be brought down; when none is left, it gives the target a fresh
/// `Connecting` record and asks for the target to be brought up.
pub open spec fn connect_advance(store: StoreView, op: ConnectView) -> (
    StoreView,
    ConnectView,
    RequestView,
) {
    if op.pending.len() > 0 {
        let name = op.pending[0];
        (
            store_write(store, name, StatusView::Disconnecting),
            ConnectView {
                phase: PhaseView::HangingUp(name),
                pending: op.pending.drop_first(),
                ..op
            },
            RequestView::Disconnect(name),
        )
    } else {
        (
            store_begin(store, op.target),
            ConnectView { phase: PhaseView::Dialing, ..op },
            RequestView::Connect,
        )
    }
}

/// One step of a connect: the cache, the operation and the next request
/// after `event` reached the operation `op` at the moment `now`.
///
/// - The operation begins by asking for the active connections. If they
///   cannot be listed, it ends with that reason.
/// - Each active connection other than the target is taken down in turn: it
///   is asked to go down, and the answer is written to its record
///   (`Disconnected`, or `Error` with the message); after
///   `SETTLE_DELAY_MS` its state is asked for, again every
///   `CONFIRM_INTERVAL_MS`, until it is `Disconnected`. After
///   `CONFIRM_POLLS` answers that were not, the operation ends with
///   `Conflict`, and the target is never asked for.
/// - Then the target is marked `Connecting` and asked to come up. Success
///   makes its record `Connected` since `now`; failure makes it `Error` with
///   the message and ends the operation with `Actuator`.
/// - Every write gives a profile that has no record a fresh one, and clears
///   the connection time and the address of a record that leaves `Connected`.
/// - An event that answers no request ends the operation with `Unexpected`
///   and writes nothing.
pub open spec fn connect_step(store: StoreView, op: ConnectView, event: EventView, now: i64) -> (
    StoreView,
    ConnectView,
    RequestView,
) {
    match (op.phase, event) {
        (PhaseView::Idle, EventView::Start) => (
            store,
            ConnectView { phase: PhaseView::Listing, ..op },
            RequestView::ListActive,
        ),
        (PhaseView::Listing, EventView::ProbeFailed(reason)) => connect_fails(
            store,
            op,
            ErrorView::Probe(reason),
        ),
        (PhaseView::Listing, EventView::Active(active)) => connect_advance(
            store,
            ConnectView { pending: other_names(active, op.target), ..op },
        ),
        (PhaseView::HangingUp(name), EventView::Actuator(answer)) => (
            store_write(
                store,
                name,
                match answer {
                    Ok(_) => StatusView::Disconnected,
                    Err(message) => StatusView::Error(message),
                },
            ),
            ConnectView { phase: PhaseView::Settling(name), ..op },
            RequestView::Wait(SETTLE_DELAY_MS),
        ),
        (PhaseView::Settling(name), EventView::Waited) => (
            store,
            ConnectView { phase: PhaseView::Confirming(name, 0), ..op },
            RequestView::QueryStatus(name),
        ),
        (PhaseView::Confirming(name, asked), EventView::Status(status)) => if status
            == StatusView::Disconnected {
            connect_advance(store, op)
        } else {
            (
                store,
                ConnectView { phase: PhaseView::Pausing(name, one_more(asked)), ..op },
                RequestView::Wait(CONFIRM_INTERVAL_MS),
            )
        },
        (PhaseView::Pausing(name, asked), EventView::Waited) => if asked >= CONFIRM_POLLS {
            connect_fails(store, op, ErrorView::Conflict(name))
        } else {
            (
                store,
                ConnectView { phase: PhaseView::Confirming(name, asked), ..op },
                RequestView::QueryStatus(name),
            )
        },
        (PhaseView::Dialing, EventView::Actuator(Ok(_))) => (
            store_connected(store, op.target, now),
            ConnectView { phase: PhaseView::Finished, ..op },
            RequestView::Done(Ok(())),
        ),
        (PhaseView::Dialing, EventView::Actuator(Err(message))) => (
            store_write(store, op.target, StatusView::Error(message)),
            ConnectView { phase: PhaseView::Finished, ..op },
            RequestView::Done(Err(ErrorView::Actuator(message))),
        ),
        _ => connect_fails(store, op, ErrorView::Unexpected),
    }
}

/// Where a disconnect stands.
#[derive(Debug, Clone, Copy, PartialEq, Eq, Structural)]
pub enum DisconnectPhase {
    /// Not begun.
    Idle,
    /// The connection was asked to go down.
    Requested,
    /// Ended.
    Finished,
}

/// One disconnect of one profile, as far as it has come.
#[derive(Debug)]
pub struct DisconnectOperation {
    target: String,
    phase: DisconnectPhase,
}

/// The mathematical value of a [`DisconnectOperation`].
pub struct DisconnectView {
    pub target: Seq<char>,
    pub phase: DisconnectPhase,
}

impl View for DisconnectOperation {
    type V = DisconnectView;

    closed spec fn view(&self) -> DisconnectView {
        DisconnectView { target: self.target@, phase: self.phase }
    }
}

/// A disconnect of `target` that has not begun.
pub open spec fn disconnect_idle(target: Seq<char>) -> DisconnectView {
    DisconnectView { target, phase: DisconnectPhase::Idle }
}

/// One step of a disconnect: the cache, the operation and the next request
/// after `event` reached the operation `op`.
///
/// The operation marks the profile `Disconnecting` and asks for it to be
/// brought down. Success makes its record `Disconnected`; failure makes it
/// `Error` with the message and ends the operation with `Actuator`. Each of
/// these writes gives a profile that has no record a fresh one, and leaves
/// the record without connection time or address. An event that answers no
/// request ends the operation with `Unexpected` and writes nothing.
pub open spec fn disconnect_step(store: StoreView, op: DisconnectView, event: EventView) -> (
    StoreView,
    DisconnectView,
    RequestView,
) {
    match (op.phase, event) {
        (DisconnectPhase::Idle, EventView::Start) => (
            store_write(store, op.target, StatusView::Disconnecting),
            DisconnectView { phase: DisconnectPhase::Requested, ..op },
            RequestView::Disconnect(op.target),
        ),
        (DisconnectPhase::Requested, EventView::Actuator(Ok(_))) => (
            store_write(store, op.target, StatusView::Disconnected),
            DisconnectView { phase: DisconnectPhase::Finished, ..op },
            RequestView::Done(Ok(())),
        ),
        (DisconnectPhase::Requested, EventView::Actuator(Err(message))) => (
            store_write(store, op.target, StatusView::Error(message)),
            DisconnectView { phase: DisconnectPhase::Finished, ..op },
            RequestView::Done(Err(ErrorView::Actuator(message))),
        ),
        _ => (
            store,
            DisconnectView { phase: DisconnectPhase::Finished, ..op },
            RequestView::Done(Err(ErrorView::Unexpected)),
        ),
    }
}

impl DisconnectOperation {
    /// A disconnect of the profile `target` that has not begun.
    pub fn new(target: &str) -> (op: Self)
        ensures
            op@ == disconnect_idle(target@),
    {
        DisconnectOperation { target: String::from_str(target), phase: DisconnectPhase::Idle }
    }

    /// The profile that this operation disconnects.
    pub fn target(&self) -> (name: &str)
        ensures
            name@ == self@.target,
    {
        self.target.as_str()
    }

    /// Whether this operation has ended.
    pub fn is_finished(&self) -> (finished: bool)
        ensures
            finished == (self@.phase == DisconnectPhase::Finished),
    {
        self.phase == DisconnectPhase::Finished
    }
}

/// The names in `active` other than `target`, in the order of the list.
pub fn names_of_others(active: &Vec<(String, Option<String>)>, target: &str) -> (names: Vec<String>)
    ensures
        names.deep_view() == other_names(active.deep_view(), target@),
{
    let ghost keep = |entry: (Seq<char>, Option<Seq<char>>)|
        if entry.0 != target@ {
            Some(entry.0)
        } else {
            None::<Seq<char>>
        };
    let mut names: Vec<String> = Vec::new();
    let mut i: usize = 0;
    while i < active.len()
        invariant
            i <= active.len(),
            keep == |entry: (Seq<char>, Option<Seq<char>>)|
                if entry.0 != target@ {
                    Some(entry.0)
                } else {
                    None::<Seq<char>>
                },
            names.deep_view() =~= filter_map(active.deep_view().take(i as int), keep),
        decreases active.len() - i,
    {
        let ghost seen = active.deep_view().take(i + 1);
        assert(seen.drop_last() =~= active.deep_view().take(i as int));
        if !same_text(active[i].0.as_str(), target) {
            names.push(active[i].0.clone());
        }
        i += 1;
    }
    assert(active.deep_view().take(active.len() as int) =~= active.deep_view());
    names
}

impl ConnectOperation {
    /// A connect of the profile `target` that has not begun.
    pub fn new(target: &str) -> (op: Self)
        ensures
            op@ == connect_idle(target@),
    {
        let op = ConnectOperation {
            target: String::from_str(target),
            phase: ConnectPhase::Idle,
            pending: Vec::new(),
        };
        assert(op.pending.deep_view() =~= Seq::empty());
        op
    }

    /// The profile that this operation connects.
    pub fn target(&self) -> (name: &str)
        ensures
            name@ == self@.target,
    {
        self.target.as_str()
    }

    /// Whether this operation has ended.
    pub fn is_finished(&self) -> (finished: bool)
        ensures
            finished == (self@.phase == PhaseView::Finished),
    {
        match &self.phase {
            ConnectPhase::Finished => true,
            _ => false,
        }
    }
}

impl VpnManager {
    /// Ends a connect with `error`.
    fn connect_fails(target: String, pending: Vec<String>, error: VpnError) -> (next: (
        ConnectOperation,
        ControlRequest,
    ))
        ensures
            next.0@ == (ConnectView {
                target: target@,
                phase: PhaseView::Finished,
                pending: pending.deep_view(),
            }),
            next.1@ == RequestView::Done(Err(error@)),
    {
        (
            ConnectOperation { target, phase: ConnectPhase::Finished, pending },
            ControlRequest::Done(Err(error)),
        )
    }

    /// Turns a connect to the next connection that is to go down, or to the
    /// target when none is left.
    fn connect_advance(&mut self, target: String, pending: Vec<String>) -> (next: (
        ConnectOperation,
        ControlRequest,
    ))
        ensures
            (final(self)@, next.0@, next.1@) == connect_advance(
                old(self)@,
                ConnectView {
                    target: target@,
                    phase: PhaseView::Idle,
                    pending: pending.deep_view(),
                },
            ),
            well_formed(final(self)@),
            all_settled(old(self)@) ==> all_settled(final(self)@),
    {
        let mut pending = pending;
        if pending.len() > 0 {
            let ghost all = pending.deep_view();
            let name = pending.remove(0);
            assert(pending.deep_view() =~= all.drop_first());
            self.write_status(name.as_str(), VpnStatus::Disconnecting);
            let request = ControlRequest::Disconnect(name.clone());
            (ConnectOperation { target, phase: ConnectPhase::HangingUp(name), pending }, request)
        } else {
            self.begin_connecting(target.as_str());
            (
                ConnectOperation { target, phase: ConnectPhase::Dialing, pending },
                ControlRequest::Connect,
            )
        }
    }

    /// Takes a connect one step further, at the moment `now`: writes to the
    /// cache what `event` brought and names the next request.
    pub fn connect_at(&mut self, op: ConnectOperation, event: ControlEvent, now: i64) -> (next: (
        ConnectOperation,
        ControlRequest,
    ))
        ensures
            (final(self)@, next.0@, next.1@) == connect_step(old(self)@, op@, event@, now),
            well_formed(final(self)@),
            all_settled(old(self)@) ==> all_settled(final(self)@),
    {
        proof {
            use_type_invariant(&*self);
            self.lemma_is_well_formed();
        }
        let ConnectOperation { target, phase, pending } = op;
        match (phase, event) {
            (ConnectPhase::Idle, ControlEvent::Start) => (
                ConnectOperation { target, phase: ConnectPhase::Listing, pending },
                ControlRequest::ListActive,
            ),
            (ConnectPhase::Listing, ControlEvent::ProbeFailed(reason)) => Self::connect_fails(
                target,
                pending,
                VpnError::Probe(reason),
            ),
            (ConnectPhase::Listing, ControlEvent::Active(active)) => {
                let others = names_of_others(&active, target.as_str());
                self.connect_advance(target, others)
            },
            (ConnectPhase::HangingUp(name), ControlEvent::Actuator(answer)) => {
                let status = match answer {
                    Ok(_) => VpnStatus::Disconnected,
                    Err(message) => VpnStatus::Error(message),
                };
                self.write_status(name.as_str(), status);
                (
                    ConnectOperation { target, phase: ConnectPhase::Settling(name), pending },
                    ControlRequest::Wait(SETTLE_DELAY_MS),
                )
            },
            (ConnectPhase::Settling(name), ControlEvent::Waited) => {
                let request = ControlRequest::QueryStatus(name.clone());
                (
                    ConnectOperation { target, phase: ConnectPhase::Confirming(name, 0), pending },
                    request,
                )
            },
            (ConnectPhase::Confirming(name, asked), ControlEvent::Status(status)) => {
                match status {
                    VpnStatus::Disconnected => self.connect_advance(target, pending),
                    _ => {
                        let counted: u32 = if asked < CONFIRM_POLLS {
                            asked + 1
                        } else {
                            asked
                        };
                        (
                            ConnectOperation {
                                target,
                                phase: ConnectPhase::Pausing(name, counted),
                                pending,
                            },
                            ControlRequest::Wait(CONFIRM_INTERVAL_MS),
                        )
                    },
                }
            },
            (ConnectPhase::Pausing(name, asked), ControlEvent::Waited) => {
                if asked >= CONFIRM_POLLS {
                    Self::connect_fails(target, pending, VpnError::Conflict(name))
                } else {
                    let request = ControlRequest::QueryStatus(name.clone());
                    (
                        ConnectOperation {
                            target,
                            phase: ConnectPhase::Confirming(name, asked),
                            pending,
                        },
                        request,
                    )
                }
            },
            (ConnectPhase::Dialing, ControlEvent::Actuator(Ok(_))) => {
                self.mark_connected(target.as_str(), now);
                (
                    ConnectOperation { target, phase: ConnectPhase::Finished, pending },
                    ControlRequest::Done(Ok(())),
                )
            },
            (ConnectPhase::Dialing, ControlEvent::Actuator(Err(message))) => {
                self.write_status(target.as_str(), VpnStatus::Error(message.clone()));
                Self::connect_fails(target, pending, VpnError::Actuator(message))
            },
            (_, _) => Self::connect_fails(target, pending, VpnError::Unexpected),
        }
    }

    /// Takes a connect one step further: writes to the cache what `event`
    /// brought and names the next request. The moment that a success is
    /// recorded with is the one that the system clock gives.
    pub fn connect(&mut self, op: ConnectOperation, event: ControlEvent) -> (next: (
        ConnectOperation,
        ControlRequest,
    ))
        ensures
            exists|now: i64|
                (final(self)@, next.0@, next.1@) == connect_step(old(self)@, op@, event@, now),
            well_formed(final(self)@),
            all_settled(old(self)@) ==> all_settled(final(self)@),
    {
        let now = clock_millis();
        self.connect_at(op, event, now)
    }

    /// Takes a disconnect one step further: writes to the cache what `event`
    /// brought and names the next request.
    pub fn disconnect(&mut self, op: DisconnectOperation, event: ControlEvent) -> (next: (
        DisconnectOperation,
        ControlRequest,
    ))
        ensures
            (final(self)@, next.0@, next.1@) == disconnect_step(old(self)@, op@, event@),
            well_formed(final(self)@),
            all_settled(old(self)@) ==> all_settled(final(self)@),
    {
        proof {
            use_type_invariant(&*self);
            self.lemma_is_well_formed();
        }
        let DisconnectOperation { target, phase } = op;
        match (phase, event) {
            (DisconnectPhase::Idle, ControlEvent::Start) => {
                self.write_status(target.as_str(), VpnStatus::Disconnecting);
                let request = ControlRequest::Disconnect(target.clone());
                (DisconnectOperation { target, phase: DisconnectPhase::Requested }, request)
            },
            (DisconnectPhase::Requested, ControlEvent::Actuator(Ok(_))) => {
                self.write_status(target.as_str(), VpnStatus::Disconnected);
                (
                    DisconnectOperation { target, phase: DisconnectPhase::Finished },
                    ControlRequest::Done(Ok(())),
                )
            },
            (DisconnectPhase::Requested, ControlEvent::Actuator(Err(message))) => {
                self.write_status(target.as_str(), VpnStatus::Error(message.clone()));
                (
                    DisconnectOperation { target, phase: DisconnectPhase::Finished },
                    ControlRequest::Done(Err(VpnError::Actuator(message))),
                )
            },
            (_, _) => (
                DisconnectOperation { target, phase: DisconnectPhase::Finished },
                ControlRequest::Done(Err(VpnError::Unexpected)),
            ),
        }
    }
}

} // verus!
