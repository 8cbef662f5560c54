//! The connection cache: what is believed about each profile's connection.

use crate::config::{names_of, profile_names, VpnProfile};
use crate::controller::{ErrorView, VpnError};
use crate::text::{clone_text, decimal_digits, optional_text, push_decimal};
use vstd::prelude::*;

verus! {

/// The state of one profile's connection.
#[derive(Debug, PartialEq)]
pub enum VpnStatus {
    Connected,
    Connecting,
    /// A connection attempt that is being repeated: the attempt's number and
    /// the number of attempts allowed. Shown while connecting; the controller
    /// and the reconciliation never store it.
    Retrying(u32, u32),
    Disconnected,
    Disconnecting,
    Error(String),
}

/// The mathematical value of a [`VpnStatus`].
pub enum StatusView {
    Connected,
    Connecting,
    Retrying(u32, u32),
    Disconnected,
    Disconnecting,
    Error(Seq<char>),
}

/// The colour in which a status is shown.
#[derive(Debug, Clone, Copy, PartialEq, Eq, Structural)]
pub enum StatusColor {
    Green,
    Yellow,
    Gray,
    Red,
}

impl View for VpnStatus {
    type V = StatusView;

    open spec fn view(&self) -> StatusView {
        match self {
            VpnStatus::Connected => StatusView::Connected,
            VpnStatus::Connecting => StatusView::Connecting,
            VpnStatus::Retrying(attempt, max) => StatusView::Retrying(*attempt, *max),
            VpnStatus::Disconnected => StatusView::Disconnected,
            VpnStatus::Disconnecting => StatusView::Disconnecting,
            VpnStatus::Error(message) => StatusView::Error(message@),
        }
    }
}

impl DeepView for VpnStatus {
    type V = StatusView;

    open spec fn deep_view(&self) -> StatusView {
        self@
    }
}

impl Clone for VpnStatus {
    fn clone(&self) -> (copy: Self)
        ensures
            copy@ == self@,
    {
        match self {
            VpnStatus::Connected => VpnStatus::Connected,
            VpnStatus::Connecting => VpnStatus::Connecting,
            VpnStatus::Retrying(attempt, max) => VpnStatus::Retrying(*attempt, *max),
            VpnStatus::Disconnected => VpnStatus::Disconnected,
            VpnStatus::Disconnecting => VpnStatus::Disconnecting,
            VpnStatus::Error(message) => VpnStatus::Error(message.clone()),
        }
    }
}

/// The text that shows a status.
pub open spec fn status_label(status: StatusView) -> Seq<char> {
    match status {
        StatusView::Connected => "Connected"@,
        StatusView::Connecting => "Connecting..."@,
        StatusView::Retrying(attempt, max) => "Retry "@ + decimal_digits(attempt as nat) + "/"@
            + decimal_digits(max as nat) + "..."@,
        StatusView::Disconnected => "Disconnected"@,
        StatusView::Disconnecting => "Disconnecting..."@,
        StatusView::Error(_) => "Error"@,
    }
}

/// The text that tells of a status in full: as it is shown, and an error
/// with its message.
pub open spec fn status_description(status: StatusView) -> Seq<char> {
    match status {
        StatusView::Error(message) => "Error: "@ + message,
        _ => status_label(status),
    }
}

/// The colour that shows a status.
pub open spec fn status_color(status: StatusView) -> StatusColor {
    match status {
        StatusView::Connected => StatusColor::Green,
        StatusView::Connecting => StatusColor::Yellow,
        StatusView::Retrying(_, _) => StatusColor::Yellow,
        StatusView::Disconnected => StatusColor::Gray,
        StatusView::Disconnecting => StatusColor::Yellow,
        StatusView::Error(_) => StatusColor::Red,
    }
}

impl VpnStatus {
    /// The text that shows this status.
    pub fn as_str(&self) -> (label: String)
        ensures
            label@ == status_label(self@),
    {
        match self {
            VpnStatus::Connected => String::from_str("Connected"),
            VpnStatus::Connecting => String::from_str("Connecting..."),
            VpnStatus::Retrying(attempt, max) => {
                let mut label = String::from_str("Retry ");
                push_decimal(&mut label, *attempt as u64);
                label.append("/");
                push_decimal(&mut label, *max as u64);
                label.append("...");
                label
            },
            VpnStatus::Disconnected => String::from_str("Disconnected"),
            VpnStatus::Disconnecting => String::from_str("Disconnecting..."),
            VpnStatus::Error(_) => String::from_str("Error"),
        }
    }

    /// The text that tells of this status in full.
    pub fn describe(&self) -> (text: String)
        ensures
            text@ == status_description(self@),
    {
        match self {
            VpnStatus::Error(message) => {
                let mut text = String::from_str("Error: ");
                text.append(message.as_str());
                text
            },
            _ => self.as_str(),
        }
    }

    /// Whether this status is `Connected`.
    pub fn is_connected(&self) -> (connected: bool)
        ensures
            connected == (self@ == StatusView::Connected),
    {
        match self {
            VpnStatus::Connected => true,
            _ => false,
        }
    }

    /// The colour that shows this status.
    pub fn color(&self) -> (color: StatusColor)
        ensures
            color == status_color(self@),
    {
        match self {
            VpnStatus::Connected => StatusColor::Green,
            VpnStatus::Connecting => StatusColor::Yellow,
            VpnStatus::Retrying(_, _) => StatusColor::Yellow,
            VpnStatus::Disconnected => StatusColor::Gray,
            VpnStatus::Disconnecting => StatusColor::Yellow,
            VpnStatus::Error(_) => StatusColor::Red,
        }
    }
}

/// What is believed about one profile's connection.
#[derive(Debug, PartialEq)]
pub struct VpnConnection {
    pub profile_name: String,
    pub status: VpnStatus,
    /// When the connection was seen to be up, in milliseconds since the Unix
    /// epoch.
    pub connected_since: Option<i64>,
    pub ip_address: Option<String>,
    pub bytes_sent: u64,
    pub bytes_received: u64,
}

/// The mathematical value of a [`VpnConnection`].
pub struct RecordView {
    pub profile_name: Seq<char>,
    pub status: StatusView,
    pub connected_since: Option<i64>,
    pub ip_address: Option<Seq<char>>,
    pub bytes_sent: u64,
    pub bytes_received: u64,
}

impl RecordView {
    /// A record that is not connected carries neither a connection time nor
    /// an address.
    pub open spec fn settled(self) -> bool {
        self.status != StatusView::Connected ==> self.connected_since is None
            && self.ip_address is None
    }

    /// This record with its status replaced and every other field kept.
    pub open spec fn with_status(self, status: StatusView) -> RecordView {
        RecordView { status, ..self }
    }

    /// This record after the controller moved it to `status`. Leaving
    /// `Connected` clears the connection time and the address; everything
    /// else is kept.
    pub open spec fn moved_to(self, status: StatusView) -> RecordView {
        if status == StatusView::Connected {
            RecordView { status, ..self }
        } else {
            RecordView { status, connected_since: None, ip_address: None, ..self }
        }
    }

    /// This record once the connection was seen to come up at `now`.
    pub open spec fn connected_at(self, now: i64) -> RecordView {
        RecordView { status: StatusView::Connected, connected_since: Some(now), ..self }
    }
}

/// The record of a profile that was never heard of before.
pub open spec fn fresh_record(name: Seq<char>, status: StatusView) -> RecordView {
    RecordView {
        profile_name: name,
        status,
        connected_since: None,
        ip_address: None,
        bytes_sent: 0,
        bytes_received: 0,
    }
}

impl View for VpnConnection {
    type V = RecordView;

    open spec fn view(&self) -> RecordView {
        RecordView {
            profile_name: self.profile_name@,
            status: self.status@,
            connected_since: self.connected_since,
            ip_address: optional_text(self.ip_address),
            bytes_sent: self.bytes_sent,
            bytes_received: self.bytes_received,
        }
    }
}

impl DeepView for VpnConnection {
    type V = RecordView;

    open spec fn deep_view(&self) -> RecordView {
        self@
    }
}

impl Clone for VpnConnection {
    fn clone(&self) -> (copy: Self)
        ensures
            copy@ == self@,
    {
        VpnConnection {
            profile_name: self.profile_name.clone(),
            status: self.status.clone(),
            connected_since: self.connected_since,
            ip_address: clone_text(&self.ip_address),
            bytes_sent: self.bytes_sent,
            bytes_received: self.bytes_received,
        }
    }
}

impl VpnConnection {
    /// The record of a profile that was never heard of before.
    pub fn fresh(name: &str, status: VpnStatus) -> (record: Self)
        ensures
            record@ == fresh_record(name@, status@),
    {
        VpnConnection {
            profile_name: String::from_str(name),
            status,
            connected_since: None,
            ip_address: None,
            bytes_sent: 0,
            bytes_received: 0,
        }
    }

    /// This record with its status replaced and every other field kept.
    pub fn with_status(&self, status: VpnStatus) -> (record: Self)
        ensures
            record@ == self@.with_status(status@),
    {
        VpnConnection {
            profile_name: self.profile_name.clone(),
            status,
            connected_since: self.connected_since,
            ip_address: clone_text(&self.ip_address),
            bytes_sent: self.bytes_sent,
            bytes_received: self.bytes_received,
        }
    }

    /// This record after the controller moved it to `status`: leaving
    /// `Connected` clears the connection time and the address.
    pub fn moved_to(&self, status: VpnStatus) -> (record: Self)
        ensures
            record@ == self@.moved_to(status@),
    {
        if status.is_connected() {
            VpnConnection {
                profile_name: self.profile_name.clone(),
                status,
                connected_since: self.connected_since,
                ip_address: clone_text(&self.ip_address),
                bytes_sent: self.bytes_sent,
                bytes_received: self.bytes_received,
            }
        } else {
            VpnConnection {
                profile_name: self.profile_name.clone(),
                status,
                connected_since: None,
                ip_address: None,
                bytes_sent: self.bytes_sent,
                bytes_received: self.bytes_received,
            }
        }
    }

    /// This record once the connection was seen to come up at `now`.
    pub fn connected_at(&self, now: i64) -> (record: Self)
        ensures
            record@ == self@.connected_at(now),
    {
        VpnConnection {
            profile_name: self.profile_name.clone(),
            status: VpnStatus::Connected,
            connected_since: Some(now),
            ip_address: clone_text(&self.ip_address),
            bytes_sent: self.bytes_sent,
            bytes_received: self.bytes_received,
        }
    }

    /// This record brought in line with what the control surface reports of
    /// its profile at `now`: `seen` is the reported address where the profile
    /// is reported active.
    pub fn reconciled(&self, seen: Option<Option<String>>, now: i64) -> (record: Self)
        ensures
            record@ == reconciled_record(
                self@,
                match seen {
                    Some(ip) => Some(optional_text(ip)),
                    None => None,
                },
                now,
            ),
    {
        match seen {
            Some(ip) => VpnConnection {
                profile_name: self.profile_name.clone(),
                status: VpnStatus::Connected,
                connected_since: if self.status.is_connected() {
                    self.connected_since
                } else {
                    Some(now)
                },
                ip_address: ip,
                bytes_sent: self.bytes_sent,
                bytes_received: self.bytes_received,
            },
            None => VpnConnection {
                profile_name: self.profile_name.clone(),
                status: VpnStatus::Disconnected,
                connected_since: None,
                ip_address: None,
                bytes_sent: self.bytes_sent,
                bytes_received: self.bytes_received,
            },
        }
    }
}

/// The moment of the call in milliseconds since the Unix epoch, read from the
/// system clock by `chrono::Local::now` and counted by
/// `DateTime::timestamp_millis`. Nothing is claimed of the value: two calls
/// may give any two numbers.
#[verifier::external_body]
pub(crate) fn clock_millis() -> i64 {
    chrono::Local::now().timestamp_millis()
}

/// What `active` reports of `name`.
pub fn find_active(active: &Vec<(String, Option<String>)>, name: &str) -> (seen: Option<
    Option<String>,
>)
    ensures
        lookup_active(active.deep_view(), name@) == match seen {
            Some(ip) => Some(optional_text(ip)),
            None => None,
        },
{
    let target = String::from_str(name);
    let mut i: usize = 0;
    assert(active.deep_view().skip(0) =~= active.deep_view());
    while i < active.len()
        invariant
            i <= active.len(),
            target@ == name@,
            lookup_active(active.deep_view(), name@) == lookup_active(
                active.deep_view().skip(i as int),
                name@,
            ),
        decreases active.len() - i,
    {
        let ghost rest = active.deep_view().skip(i as int);
        assert(rest.drop_first() =~= active.deep_view().skip(i + 1));
        if active[i].0 == target {
            let ip = clone_text(&active[i].1);
            return Some(ip);
        }
        i += 1;
    }
    None
}

/// What the control surface reports of the active connections: each one's
/// name and, where known, its address.
pub type ActiveList = Seq<(Seq<char>, Option<Seq<char>>)>;

/// What `active` reports of `name`: nothing, or the address of its first
/// entry under that name.
pub open spec fn lookup_active(active: ActiveList, name: Seq<char>) -> Option<Option<Seq<char>>>
    decreases active.len(),
{
    if active.len() == 0 {
        None
    } else if active[0].0 == name {
        Some(active[0].1)
    } else {
        lookup_active(active.drop_first(), name)
    }
}

/// A record brought in line with what the control surface reports of its
/// profile at `now`. A profile that is reported active is connected, with the
/// reported address; it keeps its connection time if it was connected before
/// and gets `now` otherwise. A profile that is not reported is disconnected.
pub open spec fn reconciled_record(
    record: RecordView,
    seen: Option<Option<Seq<char>>>,
    now: i64,
) -> RecordView {
    match seen {
        Some(ip) => RecordView {
            status: StatusView::Connected,
            connected_since: if record.status == StatusView::Connected {
                record.connected_since
            } else {
                Some(now)
            },
            ip_address: ip,
            ..record
        },
        None => RecordView {
            status: StatusView::Disconnected,
            connected_since: None,
            ip_address: None,
            ..record
        },
    }
}

/// The cache as a mathematical value: the record of each known profile, by
/// the profile's name.
pub type StoreView = Map<Seq<char>, RecordView>;

/// Every record stands under its own name.
pub open spec fn well_formed(store: StoreView) -> bool {
    forall|name: Seq<char>| #[trigger] store.contains_key(name) ==> store[name].profile_name == name
}

/// Every record is settled: none but a connected profile has a connection
/// time or an address.
pub open spec fn all_settled(store: StoreView) -> bool {
    forall|name: Seq<char>| #[trigger] store.contains_key(name) ==> store[name].settled()
}

/// The record that a reader gets for `name`: the stored one, or that of a
/// disconnected profile when none is stored.
pub open spec fn record_in(store: StoreView, name: Seq<char>) -> RecordView {
    if store.contains_key(name) {
        store[name]
    } else {
        fresh_record(name, StatusView::Disconnected)
    }
}

/// The status that a reader gets for `name`.
pub open spec fn status_in(store: StoreView, name: Seq<char>) -> StatusView {
    record_in(store, name).status
}

/// The cache after the status of `name` was set: an existing record keeps
/// all its other fields, and a profile without a record gets a fresh one. No
/// other record changes.
pub open spec fn store_set(store: StoreView, name: Seq<char>, status: StatusView) -> StoreView {
    if store.contains_key(name) {
        store.insert(name, store[name].with_status(status))
    } else {
        store.insert(name, fresh_record(name, status))
    }
}

/// The cache after the controller wrote the status of `name`: an existing
/// record is moved to the status, which clears its connection time and its
/// address unless the status is `Connected`; a profile without a record gets
/// a fresh one. No other record changes.
pub open spec fn store_write(store: StoreView, name: Seq<char>, status: StatusView) -> StoreView {
    if store.contains_key(name) {
        store.insert(name, store[name].moved_to(status))
    } else {
        store.insert(name, fresh_record(name, status))
    }
}

/// The cache after a connection attempt for `name` has begun: whatever was
/// known of the profile is replaced by a fresh `Connecting` record.
pub open spec fn store_begin(store: StoreView, name: Seq<char>) -> StoreView {
    store.insert(name, fresh_record(name, StatusView::Connecting))
}

/// The cache after `name` was seen to come up at `now`: its record, a fresh
/// one where there was none, is `Connected` since `now`.
pub open spec fn store_connected(store: StoreView, name: Seq<char>, now: i64) -> StoreView {
    store.insert(name, record_in(store, name).connected_at(now))
}

/// The cache after every name of `names` was given a record: existing
/// records are untouched, the others start out disconnected.
pub open spec fn store_upsert_all(store: StoreView, names: Seq<Seq<char>>) -> StoreView {
    Map::new(
        |name: Seq<char>| store.contains_key(name) || names.contains(name),
        |name: Seq<char>| record_in(store, name),
    )
}

/// The cache after a reconciliation at `now`: every name of `known` has a
/// record, and every record is in line with `active`.
pub open spec fn reconciled(
    store: StoreView,
    known: Seq<Seq<char>>,
    active: ActiveList,
    now: i64,
) -> StoreView {
    Map::new(
        |name: Seq<char>| store.contains_key(name) || known.contains(name),
        |name: Seq<char>|
            reconciled_record(record_in(store, name), lookup_active(active, name), now),
    )
}

/// Every way of writing to the cache keeps it well formed.
pub proof fn lemma_writes_keep_well_formed(
    store: StoreView,
    name: Seq<char>,
    status: StatusView,
    names: Seq<Seq<char>>,
    active: ActiveList,
    now: i64,
)
    requires
        well_formed(store),
    ensures
        well_formed(store_set(store, name, status)),
        well_formed(store_write(store, name, status)),
        well_formed(store_begin(store, name)),
        well_formed(store_upsert_all(store, names)),
        well_formed(reconciled(store, names, active, now)),
        well_formed(store_connected(store, name, now)),
{
}

/// The writes of the controller keep every record settled, and so does
/// giving names a record.
pub proof fn lemma_writes_keep_settled(
    store: StoreView,
    name: Seq<char>,
    status: StatusView,
    names: Seq<Seq<char>>,
    now: i64,
)
    requires
        all_settled(store),
    ensures
        all_settled(store_write(store, name, status)),
        all_settled(store_begin(store, name)),
        all_settled(store_connected(store, name, now)),
        all_settled(store_upsert_all(store, names)),
{
}

/// After a reconciliation every record is settled, whatever the cache held
/// before.
pub proof fn lemma_reconcile_settles(
    store: StoreView,
    known: Seq<Seq<char>>,
    active: ActiveList,
    now: i64,
)
    ensures
        all_settled(reconciled(store, known, active, now)),
{
}

/// Setting a status changes one record and that record's status alone: the
/// profile then has that status, its record keeps the connection time, the
/// address and the counters it had, and every other profile is as it was.
pub proof fn lemma_set_keeps_other_fields(
    store: StoreView,
    name: Seq<char>,
    status: StatusView,
    other: Seq<char>,
)
    ensures
        status_in(store_set(store, name, status), name) == status,
        record_in(store_set(store, name, status), name).connected_since == record_in(
            store,
            name,
        ).connected_since,
        record_in(store_set(store, name, status), name).ip_address == record_in(
            store,
            name,
        ).ip_address,
        record_in(store_set(store, name, status), name).bytes_sent == record_in(
            store,
            name,
        ).bytes_sent,
        record_in(store_set(store, name, status), name).bytes_received == record_in(
            store,
            name,
        ).bytes_received,
        other != name ==> store_set(store, name, status).contains_key(other)
            == store.contains_key(other) && record_in(store_set(store, name, status), other)
            == record_in(store, other),
        all_settled(store) && (status == StatusView::Connected || status_in(store, name)
            != StatusView::Connected) ==> all_settled(store_set(store, name, status)),
{
}

/// A write of the controller leaves the profile with the status written, and
/// without connection time or address unless the status is `Connected`; every
/// other profile is as it was.
pub proof fn lemma_write_is_recorded(
    store: StoreView,
    name: Seq<char>,
    status: StatusView,
    other: Seq<char>,
)
    ensures
        store_write(store, name, status).contains_key(name),
        status_in(store_write(store, name, status), name) == status,
        status != StatusView::Connected ==> record_in(
            store_write(store, name, status),
            name,
        ).connected_since is None && record_in(store_write(store, name, status), name).ip_address
            is None,
        other != name ==> store_write(store, name, status).contains_key(other)
            == store.contains_key(other) && record_in(store_write(store, name, status), other)
            == record_in(store, other),
{
}

/// A reconciliation makes the cache say what the control surface reports. A
/// profile that has a record or is among the known names is `Connected` with
/// the reported address if the report lists it, and `Disconnected` without
/// address or connection time if the report does not.
pub proof fn lemma_reconcile_follows_report(
    store: StoreView,
    known: Seq<Seq<char>>,
    active: ActiveList,
    now: i64,
    name: Seq<char>,
)
    requires
        store.contains_key(name) || known.contains(name),
    ensures
        match lookup_active(active, name) {
            Some(ip) => {
                &&& status_in(reconciled(store, known, active, now), name) == StatusView::Connected
                &&& record_in(reconciled(store, known, active, now), name).ip_address == ip
                &&& record_in(reconciled(store, known, active, now), name).connected_since == if status_in(
                    store,
                    name,
                ) == StatusView::Connected {
                    record_in(store, name).connected_since
                } else {
                    Some(now)
                }
            },
            None => {
                &&& status_in(reconciled(store, known, active, now), name)
                    == StatusView::Disconnected
                &&& record_in(reconciled(store, known, active, now), name).ip_address is None
                &&& record_in(reconciled(store, known, active, now), name).connected_since is None
            },
        },
{
}

/// A connection that comes and goes is followed: a reconciliation whose
/// report lists the profile with an address makes it `Connected` at that
/// address, and a later one whose report no longer lists it makes it
/// `Disconnected` and clears the address and the connection time.
pub proof fn lemma_reconcile_connects_then_disconnects(
    store: StoreView,
    known: Seq<Seq<char>>,
    listed: ActiveList,
    unlisted: ActiveList,
    first: i64,
    second: i64,
    name: Seq<char>,
    ip: Option<Seq<char>>,
)
    requires
        store.contains_key(name) || known.contains(name),
        lookup_active(listed, name) == Some(ip),
        lookup_active(unlisted, name) is None,
    ensures
        status_in(reconciled(store, known, listed, first), name) == StatusView::Connected,
        record_in(reconciled(store, known, listed, first), name).ip_address == ip,
        status_in(
            reconciled(reconciled(store, known, listed, first), known, unlisted, second),
            name,
        ) == StatusView::Disconnected,
        record_in(
            reconciled(reconciled(store, known, listed, first), known, unlisted, second),
            name,
        ).ip_address is None,
        record_in(
            reconciled(reconciled(store, known, listed, first), known, unlisted, second),
            name,
        ).connected_since is None,
{
    lemma_reconcile_follows_report(store, known, listed, first, name);
    lemma_reconcile_follows_report(
        reconciled(store, known, listed, first),
        known,
        unlisted,
        second,
        name,
    );
}

/// A profile that no record and no known name speaks of stays without a
/// record through a reconciliation, so a reader finds it `Disconnected`.
pub proof fn lemma_reconcile_leaves_strangers(
    store: StoreView,
    known: Seq<Seq<char>>,
    active: ActiveList,
    now: i64,
    name: Seq<char>,
)
    requires
        !store.contains_key(name),
        !known.contains(name),
    ensures
        !reconciled(store, known, active, now).contains_key(name),
        status_in(reconciled(store, known, active, now), name) == StatusView::Disconnected,
{
}

/// Observing the same report again does not restart the connection clock: a
/// second reconciliation with the same report leaves every connection time as
/// the first one set it, whatever the two moments are. It leaves the whole
/// cache as it was.
pub proof fn lemma_reconcile_keeps_connection_time(
    store: StoreView,
    known: Seq<Seq<char>>,
    active: ActiveList,
    first: i64,
    second: i64,
)
    ensures
        reconciled(reconciled(store, known, active, first), known, active, second) == reconciled(
            store,
            known,
            active,
            first,
        ),
        forall|name: Seq<char>|
            record_in(
                reconciled(reconciled(store, known, active, first), known, active, second),
                name,
            ).connected_since == (#[trigger] record_in(
                reconciled(store, known, active, first),
                name,
            )).connected_since,
{
    let once = reconciled(store, known, active, first);
    assert(reconciled(once, known, active, second) =~= once);
}

/// The names of `records` differ pairwise.
spec fn distinct_names(records: Seq<VpnConnection>) -> bool {
    forall|i: int, j: int|
        0 <= i < j < records.len() ==> records[i].profile_name@ != records[j].profile_name@
}

/// `records` holds a record under `name`.
spec fn holds_name(records: Seq<VpnConnection>, name: Seq<char>) -> bool {
    exists|i: int| 0 <= i < records.len() && #[trigger] records[i].profile_name@ == name
}

/// The position of the record of `name` in `records`.
spec fn position_of(records: Seq<VpnConnection>, name: Seq<char>) -> int {
    choose|i: int| 0 <= i < records.len() && #[trigger] records[i].profile_name@ == name
}

/// The cache that a list of records stands for.
spec fn store_of(records: Seq<VpnConnection>) -> StoreView {
    Map::new(
        |name: Seq<char>| holds_name(records, name),
        |name: Seq<char>| records[position_of(records, name)]@,
    )
}

/// In a list with distinct names, the cache holds each record under its name.
proof fn lemma_store_of_at(records: Seq<VpnConnection>, i: int)
    requires
        distinct_names(records),
        0 <= i < records.len(),
    ensures
        store_of(records).contains_key(records[i].profile_name@),
        store_of(records)[records[i].profile_name@] == records[i]@,
{
    let at = position_of(records, records[i].profile_name@);
    assert(at == i);
}

/// Replacing a record by one of the same name replaces it in the cache.
proof fn lemma_store_of_update(records: Seq<VpnConnection>, i: int, record: VpnConnection)
    requires
        distinct_names(records),
        0 <= i < records.len(),
        record.profile_name@ == records[i].profile_name@,
    ensures
        distinct_names(records.update(i, record)),
        store_of(records.update(i, record)) == store_of(records).insert(
            record.profile_name@,
            record@,
        ),
{
    let after = records.update(i, record);
    let name = record.profile_name@;
    assert(distinct_names(after));
    let want = store_of(records).insert(name, record@);
    assert forall|n: Seq<char>| store_of(after).contains_key(n) == want.contains_key(n) by {
        if holds_name(records, n) {
            let k = position_of(records, n);
            assert(after[k].profile_name@ == n);
        }
    }
    assert forall|n: Seq<char>| store_of(after).contains_key(n) implies store_of(after)[n]
        == want[n] by {
        let k = position_of(after, n);
        lemma_store_of_at(after, k);
        if k != i {
            lemma_store_of_at(records, k);
        }
    }
}

/// Adding a record under a new name adds it to the cache.
proof fn lemma_store_of_push(records: Seq<VpnConnection>, record: VpnConnection)
    requires
        distinct_names(records),
        !holds_name(records, record.profile_name@),
    ensures
        distinct_names(records.push(record)),
        store_of(records.push(record)) == store_of(records).insert(
            record.profile_name@,
            record@,
        ),
{
    let after = records.push(record);
    let name = record.profile_name@;
    assert(distinct_names(after));
    let want = store_of(records).insert(name, record@);
    assert forall|n: Seq<char>| store_of(after).contains_key(n) == want.contains_key(n) by {
        if holds_name(records, n) {
            let k = position_of(records, n);
            assert(after[k].profile_name@ == n);
        }
        if n == name {
            assert(after[records.len() as int].profile_name@ == n);
        }
    }
    assert forall|n: Seq<char>| store_of(after).contains_key(n) implies store_of(after)[n]
        == want[n] by {
        let k = position_of(after, n);
        lemma_store_of_at(after, k);
        if k < records.len() {
            lemma_store_of_at(records, k);
        }
    }
}

/// A list of records with distinct names stands for a well-formed cache.
proof fn lemma_store_of_well_formed(records: Seq<VpnConnection>)
    requires
        distinct_names(records),
    ensures
        well_formed(store_of(records)),
{
    let store = store_of(records);
    assert forall|n: Seq<char>| #[trigger] store.contains_key(n) implies store[n].profile_name
        == n by {
        let k = position_of(records, n);
        lemma_store_of_at(records, k);
    }
}

/// `all` lists the records of `store`, each once, in some order.
pub open spec fn is_snapshot(all: Seq<RecordView>, store: StoreView) -> bool {
    &&& forall|i: int|
        0 <= i < all.len() ==> store.contains_key(#[trigger] all[i].profile_name)
            && store[all[i].profile_name] == all[i]
    &&& forall|name: Seq<char>| #[trigger]
        store.contains_key(name) ==> exists|i: int|
            0 <= i < all.len() && #[trigger] all[i].profile_name == name
    &&& forall|i: int, j: int|
        0 <= i < j < all.len() ==> all[i].profile_name != all[j].profile_name
}

/// The connection cache. It holds at most one record for each profile name.
/// A profile without a record counts as disconnected.
pub struct VpnManager {
    connections: Vec<VpnConnection>,
}

impl View for VpnManager {
    type V = StoreView;

    closed spec fn view(&self) -> StoreView {
        store_of(self.connections@)
    }
}

impl Default for VpnManager {
    fn default() -> (manager: Self)
        ensures
            manager@ == Map::<Seq<char>, RecordView>::empty(),
    {
        VpnManager::new()
    }
}

impl VpnManager {
    /// What holds of every cache: it has one record at most for a name.
    #[verifier::type_invariant]
    pub closed spec fn consistent(&self) -> bool {
        distinct_names(self.connections@)
    }

    /// An empty cache.
    pub fn new() -> (manager: Self)
        ensures
            manager@ == Map::<Seq<char>, RecordView>::empty(),
    {
        let manager = VpnManager { connections: Vec::new() };
        manager
    }

    /// Where the record of `name` stands, if there is one.
    fn find(&self, name: &str) -> (at: Option<usize>)
        ensures
            match at {
                Some(i) => i < self.connections.len() && self.connections[i as int].profile_name@
                    == name@ && self@.contains_key(name@) && self@[name@]
                    == self.connections[i as int]@,
                None => !self@.contains_key(name@),
            },
    {
        proof {
            use_type_invariant(self);
        }
        let target = String::from_str(name);
        let mut i: usize = 0;
        while i < self.connections.len()
            invariant
                i <= self.connections.len(),
                target@ == name@,
                distinct_names(self.connections@),
                forall|k: int| 0 <= k < i ==> self.connections[k].profile_name@ != name@,
            decreases self.connections.len() - i,
        {
            if self.connections[i].profile_name == target {
                proof {
                    lemma_store_of_at(self.connections@, i as int);
                }
                return Some(i);
            }
            i += 1;
        }
        None
    }

    /// Puts `record` in the place of the record at `at`, which has its name.
    fn replace_at(&mut self, at: usize, record: VpnConnection)
        requires
            at < old(self).connections.len(),
            record.profile_name@ == old(self).connections[at as int].profile_name@,
        ensures
            final(self)@ == old(self)@.insert(record.profile_name@, record@),
    {
        proof {
            use_type_invariant(&*self);
            lemma_store_of_update(self.connections@, at as int, record);
        }
        let mut records: Vec<VpnConnection> = Vec::new();
        core::mem::swap(&mut self.connections, &mut records);
        records.set(at, record);
        self.connections = records;
    }

    /// Adds `record`, whose name has no record yet.
    fn append(&mut self, record: VpnConnection)
        requires
            !old(self)@.contains_key(record.profile_name@),
        ensures
            final(self)@ == old(self)@.insert(record.profile_name@, record@),
    {
        proof {
            use_type_invariant(&*self);
            lemma_store_of_push(self.connections@, record);
        }
        let mut records: Vec<VpnConnection> = Vec::new();
        core::mem::swap(&mut self.connections, &mut records);
        records.push(record);
        self.connections = records;
    }

    /// A consistent cache is well formed.
    pub proof fn lemma_is_well_formed(&self)
        requires
            self.consistent(),
        ensures
            well_formed(self@),
    {
        lemma_store_of_well_formed(self.connections@);
    }

    /// Sets the status of a profile. An existing record keeps all its other
    /// fields: connection time, address and counters; a profile without a
    /// record gets a fresh one. No other record changes.
    pub fn set_status(&mut self, profile_name: &str, status: VpnStatus)
        ensures
            final(self)@ == store_set(old(self)@, profile_name@, status@),
            well_formed(final(self)@),
    {
        match self.find(profile_name) {
            Some(i) => {
                let record = self.connections[i].with_status(status);
                self.replace_at(i, record);
            },
            None => {
                let record = VpnConnection::fresh(profile_name, status);
                self.append(record);
            },
        }
        proof {
            use_type_invariant(&*self);
            lemma_store_of_well_formed(self.connections@);
        }
    }

    /// Writes the status that the controller has moved a profile to: its
    /// record loses connection time and address unless the status is
    /// `Connected`, and a profile without a record gets a fresh one.
    pub(crate) fn write_status(&mut self, profile_name: &str, status: VpnStatus)
        ensures
            final(self)@ == store_write(old(self)@, profile_name@, status@),
            well_formed(final(self)@),
            all_settled(old(self)@) ==> all_settled(final(self)@),
    {
        match self.find(profile_name) {
            Some(i) => {
                let record = self.connections[i].moved_to(status);
                self.replace_at(i, record);
            },
            None => {
                let record = VpnConnection::fresh(profile_name, status);
                self.append(record);
            },
        }
        proof {
            use_type_invariant(&*self);
            lemma_store_of_well_formed(self.connections@);
        }
    }

    /// Starts a record for a connection attempt: whatever was known of the
    /// profile is replaced by a fresh `Connecting` record.
    pub(crate) fn begin_connecting(&mut self, profile_name: &str)
        ensures
            final(self)@ == store_begin(old(self)@, profile_name@),
            well_formed(final(self)@),
            all_settled(old(self)@) ==> all_settled(final(self)@),
    {
        let record = VpnConnection::fresh(profile_name, VpnStatus::Connecting);
        match self.find(profile_name) {
            Some(i) => {
                self.replace_at(i, record);
            },
            None => {
                self.append(record);
            },
        }
        proof {
            use_type_invariant(&*self);
            lemma_store_of_well_formed(self.connections@);
        }
    }

    /// Records that a profile came up at `now`.
    pub(crate) fn mark_connected(&mut self, profile_name: &str, now: i64)
        ensures
            final(self)@ == store_connected(old(self)@, profile_name@, now),
            well_formed(final(self)@),
            all_settled(old(self)@) ==> all_settled(final(self)@),
    {
        match self.find(profile_name) {
            Some(i) => {
                let record = self.connections[i].connected_at(now);
                self.replace_at(i, record);
            },
            None => {
                let record = VpnConnection::fresh(profile_name, VpnStatus::Disconnected).connected_at(
                    now,
                );
                self.append(record);
            },
        }
        proof {
            use_type_invariant(&*self);
            lemma_store_of_well_formed(self.connections@);
        }
    }

    /// Gives every name of `names` a record: existing records are untouched,
    /// the others start out disconnected.
    pub fn upsert_all(&mut self, names: &Vec<String>)
        ensures
            final(self)@ == store_upsert_all(old(self)@, names.deep_view()),
            well_formed(final(self)@),
            all_settled(old(self)@) ==> all_settled(final(self)@),
    {
        let mut i: usize = 0;
        while i < names.len()
            invariant
                i <= names.len(),
                self@ == store_upsert_all(old(self)@, names.deep_view().take(i as int)),
            decreases names.len() - i,
        {
            let ghost done = names.deep_view().take(i as int);
            let ghost next = names.deep_view().take(i + 1);
            assert forall|n: Seq<char>| next.contains(n) == (done.contains(n) || n
                == names[i as int]@) by {
                if n == names[i as int]@ {
                    assert(next[i as int] == n);
                }
            }
            if self.find(names[i].as_str()).is_none() {
                let record = VpnConnection::fresh(names[i].as_str(), VpnStatus::Disconnected);
                self.append(record);
            }
            i += 1;
        }
        assert(names.deep_view().take(names.len() as int) =~= names.deep_view());
        proof {
            use_type_invariant(&*self);
            lemma_store_of_well_formed(self.connections@);
        }
    }

    /// Brings the cache in line with what the control surface reports at
    /// `now`. Every name of `known` gets a record. A profile that `active`
    /// lists is connected, with the listed address, and keeps the connection
    /// time it had if it was connected already; any other profile is
    /// disconnected. Whatever the cache held before, an `Error` too, gives
    /// way to the report, and afterwards every record is settled.
    pub fn reconcile(
        &mut self,
        known: &Vec<String>,
        active: &Vec<(String, Option<String>)>,
        now: i64,
    )
        ensures
            final(self)@ == reconciled(old(self)@, known.deep_view(), active.deep_view(), now),
            well_formed(final(self)@),
            all_settled(final(self)@),
    {
        self.upsert_all(known);
        let ghost mid = self@;
        proof {
            use_type_invariant(&*self);
        }
        let mut records: Vec<VpnConnection> = Vec::new();
        core::mem::swap(&mut self.connections, &mut records);
        let ghost before = records@;
        assert(mid == store_of(before));
        let mut i: usize = 0;
        while i < records.len()
            invariant
                i <= records.len(),
                records.len() == before.len(),
                forall|k: int|
                    0 <= k < records.len() ==> (#[trigger] records[k]).profile_name@
                        == before[k].profile_name@,
                forall|k: int|
                    0 <= k < i ==> (#[trigger] records[k])@ == reconciled_record(
                        before[k]@,
                        lookup_active(active.deep_view(), before[k].profile_name@),
                        now,
                    ),
                forall|k: int| i <= k < records.len() ==> #[trigger] records[k] == before[k],
            decreases records.len() - i,
        {
            let seen = find_active(active, records[i].profile_name.as_str());
            let record = records[i].reconciled(seen, now);
            records.set(i, record);
            i += 1;
        }
        proof {
            assert(distinct_names(records@));
            let want = reconciled(old(self)@, known.deep_view(), active.deep_view(), now);
            assert forall|n: Seq<char>| store_of(records@).contains_key(n) == want.contains_key(
                n,
            ) by {
                if holds_name(before, n) {
                    let k = position_of(before, n);
                    assert(records[k].profile_name@ == n);
                }
            }
            assert forall|n: Seq<char>| store_of(records@).contains_key(n) implies store_of(
                records@,
            )[n] == want[n] by {
                let k = position_of(records@, n);
                lemma_store_of_at(records@, k);
                lemma_store_of_at(before, k);
            }
        }
        self.connections = records;
        proof {
            use_type_invariant(&*self);
            lemma_store_of_well_formed(self.connections@);
        }
    }

    /// Brings the cache in line with what the control surface reports now.
    /// `listed` is what the listing of the active connections gave. Where
    /// it gave a list, the cache is reconciled once, for the names of
    /// `profiles`, at the moment the system clock gives. Where it failed, the
    /// cache stays as it is and the reason is returned.
    pub fn refresh_all_status(
        &mut self,
        profiles: &Vec<VpnProfile>,
        listed: &Result<Vec<(String, Option<String>)>, String>,
    ) -> (result: Result<(), VpnError>)
        ensures
            match *listed {
                Ok(active) => {
                    &&& result is Ok
                    &&& all_settled(final(self)@)
                    &&& exists|now: i64|
                        final(self)@ == reconciled(
                            old(self)@,
                            profile_names(profiles.deep_view()),
                            active.deep_view(),
                            now,
                        )
                },
                Err(reason) => {
                    &&& final(self)@ == old(self)@
                    &&& result matches Err(error) && error@ == ErrorView::Probe(reason@)
                },
            },
            well_formed(final(self)@),
    {
        match listed {
            Ok(active) => {
                let known = names_of(profiles);
                let now = clock_millis();
                self.reconcile(&known, active, now);
                Ok(())
            },
            Err(reason) => {
                proof {
                    use_type_invariant(&*self);
                    lemma_store_of_well_formed(self.connections@);
                }
                Err(VpnError::Probe(reason.clone()))
            },
        }
    }

    /// A copy of every record, each profile once, in no particular order.
    pub fn get_all_connections(&self) -> (all: Vec<VpnConnection>)
        ensures
            is_snapshot(all.deep_view(), self@),
            well_formed(self@),
    {
        proof {
            use_type_invariant(self);
            lemma_store_of_well_formed(self.connections@);
        }
        let mut all: Vec<VpnConnection> = Vec::new();
        let mut i: usize = 0;
        while i < self.connections.len()
            invariant
                i <= self.connections.len(),
                all.len() == i,
                forall|k: int| 0 <= k < i ==> (#[trigger] all[k])@ == self.connections[k]@,
            decreases self.connections.len() - i,
        {
            all.push(self.connections[i].clone());
            i += 1;
        }
        proof {
            let views = all.deep_view();
            let records = self.connections@;
            assert forall|k: int| 0 <= k < views.len() implies self@.contains_key(
                #[trigger] views[k].profile_name,
            ) && self@[views[k].profile_name] == views[k] by {
                lemma_store_of_at(records, k);
            }
            assert forall|n: Seq<char>| #[trigger] self@.contains_key(n) implies exists|k: int|
                0 <= k < views.len() && #[trigger] views[k].profile_name == n by {
                let k = position_of(records, n);
                assert(views[k].profile_name == n);
            }
            assert(forall|a: int, b: int|
                0 <= a < b < views.len() ==> views[a].profile_name != views[b].profile_name);
        }
        all
    }

    /// The cached status of a profile; `Disconnected` for a profile that has
    /// no record.
    pub fn get_status(&self, profile_name: &str) -> (status: VpnStatus)
        ensures
            status@ == status_in(self@, profile_name@),
            !self@.contains_key(profile_name@) ==> status@ == StatusView::Disconnected,
    {
        match self.find(profile_name) {
            Some(i) => self.connections[i].status.clone(),
            None => VpnStatus::Disconnected,
        }
    }

    /// A copy of the record of a profile; that of a disconnected profile where
    /// none is stored.
    pub fn get(&self, profile_name: &str) -> (record: VpnConnection)
        ensures
            record@ == record_in(self@, profile_name@),
    {
        match self.find(profile_name) {
            Some(i) => self.connections[i].clone(),
            None => VpnConnection::fresh(profile_name, VpnStatus::Disconnected),
        }
    }
}

} // verus!
