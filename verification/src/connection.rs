//! Connections and the connection registry.
//!
//! A [`Connection`] is a live session: its identity, its metadata and the
//! producer handle of its outbound queue. The [`ConnectionManager`] maps
//! connection ids to connections and offers the broadcast primitives. The
//! model of the registry is a finite map from ids to connection models.

use crate::error::{Error, Result};
use crate::message::{json_message, json_text, Message};
use dashmap::DashMap;
use tokio::sync::mpsc::{UnboundedReceiver, UnboundedSender};
use vstd::prelude::*;
use vstd::string::StringExecFns;

verus! {

/// A unique identifier of a connection.
pub type ConnectionId = String;

/// Metadata of a connection, fixed when the session starts.
#[derive(Debug)]
pub struct ConnectionInfo {
    /// The id of the connection.
    pub id: ConnectionId,
    /// The network address of the peer, in text form.
    pub addr: String,
    /// When the connection was accepted, in seconds since the Unix epoch.
    pub connected_at: u64,
    /// The protocol label, if one was negotiated.
    pub protocol: Option<String>,
}

/// The mathematical model of a [`ConnectionInfo`].
pub struct ConnectionInfoView {
    /// The id of the connection.
    pub id: Seq<char>,
    /// The address of the peer.
    pub addr: Seq<char>,
    /// The time of acceptance.
    pub connected_at: u64,
    /// The protocol label.
    pub protocol: Option<Seq<char>>,
}

impl View for ConnectionInfo {
    type V = ConnectionInfoView;

    open spec fn view(&self) -> ConnectionInfoView {
        ConnectionInfoView {
            id: self.id@,
            addr: self.addr@,
            connected_at: self.connected_at,
            protocol: match self.protocol {
                Some(p) => Some(p@),
                None => None,
            },
        }
    }
}

impl Clone for ConnectionInfo {
    fn clone(&self) -> (copy: Self)
        ensures
            copy@ == self@,
    {
        ConnectionInfo {
            id: self.id.clone(),
            addr: self.addr.clone(),
            connected_at: self.connected_at,
            protocol: match &self.protocol {
                Some(p) => Some(p.clone()),
                None => None,
            },
        }
    }
}

/// The producer half of an unbounded queue, carried as an opaque value.
#[verifier::external_type_specification]
#[verifier::external_body]
#[verifier::reject_recursive_types(T)]
pub struct ExUnboundedSender<T>(UnboundedSender<T>);

/// The consumer half of an unbounded queue, carried as an opaque value.
#[verifier::external_type_specification]
#[verifier::external_body]
#[verifier::reject_recursive_types(T)]
pub struct ExUnboundedReceiver<T>(UnboundedReceiver<T>);

/// A concurrent hash map, carried as an opaque value whose contents are
/// named by [`registry_entries`].
#[verifier::external_type_specification]
#[verifier::external_body]
#[verifier::reject_recursive_types(K)]
#[verifier::reject_recursive_types(V)]
#[verifier::reject_recursive_types(S)]
pub struct ExDashMap<K, V, S>(DashMap<K, V, S>);

/// A live connection: identity, metadata and the handle that enqueues
/// outbound messages.
pub struct Connection {
    /// The id of the connection.
    pub id: ConnectionId,
    /// The metadata of the connection.
    pub info: ConnectionInfo,
    sender: UnboundedSender<Message>,
}

/// The mathematical model of a [`Connection`].
pub struct ConnectionView {
    /// The id of the connection.
    pub id: Seq<char>,
    /// The metadata of the connection.
    pub info: ConnectionInfoView,
    /// The handle of the outbound queue.
    pub sender: UnboundedSender<Message>,
}

impl View for Connection {
    type V = ConnectionView;

    closed spec fn view(&self) -> ConnectionView {
        ConnectionView { id: self.id@, info: self.info@, sender: self.sender }
    }
}

/// Enqueues a message with `UnboundedSender::send`, which never waits. It
/// fails only when the receiving half is closed or dropped; the failure is
/// handed back as its display text, which is always `channel closed`.
#[verifier::external_body]
fn queue_send(sender: &UnboundedSender<Message>, message: Message) -> (sent: core::result::Result<
    (),
    String,
>)
    ensures
        sent matches Err(reason) ==> reason@ == "channel closed"@,
{
    match sender.send(message) {
        Ok(()) => Ok(()),
        Err(e) => Err(e.to_string()),
    }
}

/// Creates a fresh unbounded queue with `tokio::sync::mpsc::unbounded_channel`
/// and hands back its two halves.
#[verifier::external_body]
pub(crate) fn queue_new() -> (ends: (UnboundedSender<Message>, UnboundedReceiver<Message>)) {
    tokio::sync::mpsc::unbounded_channel()
}

/// Makes another handle of the same queue with `UnboundedSender::clone`. The
/// model does not tell the handles of one queue apart.
#[verifier::external_body]
fn queue_handle(sender: &UnboundedSender<Message>) -> (handle: UnboundedSender<Message>)
    ensures
        handle == *sender,
{
    sender.clone()
}

impl Clone for Connection {
    /// Another handle of the same connection; the queue is not duplicated.
    fn clone(&self) -> (copy: Self)
        ensures
            copy@ == self@,
    {
        Connection {
            id: self.id.clone(),
            info: self.info.clone(),
            sender: queue_handle(&self.sender),
        }
    }
}

/// The text of the error that a failed enqueue is reported with.
pub open spec fn send_failure_text() -> Seq<char> {
    "Failed to send message: "@ + "channel closed"@
}

impl Connection {
    /// Creates a connection accepted at `connected_at` from the peer at
    /// `addr`, sending through `sender`. No protocol label is set.
    pub fn new(
        id: ConnectionId,
        addr: String,
        connected_at: u64,
        sender: UnboundedSender<Message>,
    ) -> (conn: Connection)
        ensures
            conn@.id == id@,
            conn@.sender == sender,
            conn@.info == (ConnectionInfoView {
                id: id@,
                addr: addr@,
                connected_at,
                protocol: None,
            }),
    {
        let info = ConnectionInfo { id: id.clone(), addr, connected_at, protocol: None };
        Connection { id, info, sender }
    }

    /// What `send` reports for each outcome of the enqueue: success, or a
    /// custom error that names the failure.
    pub fn send_outcome(sent: core::result::Result<(), String>) -> (out: Result<()>)
        ensures
            sent is Ok ==> out is Ok,
            sent matches Err(reason) ==> (out matches Err(Error::Custom(text)) && text@
                == "Failed to send message: "@ + reason@),
    {
        match sent {
            Ok(()) => Ok(()),
            Err(reason) => Err(
                Error::Custom(String::from_str("Failed to send message: ").concat(reason.as_str())),
            ),
        }
    }

    /// Enqueues a message on the outbound queue of this connection without
    /// waiting. It fails only when the consumer of the queue is gone.
    pub fn send(&self, message: Message) -> (out: Result<()>)
        ensures
            out is Ok || (out matches Err(Error::Custom(text)) && text@ == send_failure_text()),
    {
        Connection::send_outcome(queue_send(&self.sender, message))
    }

    /// Enqueues a text message.
    pub fn send_text(&self, text: &str) -> (out: Result<()>)
        ensures
            out is Ok || (out matches Err(Error::Custom(text)) && text@ == send_failure_text()),
    {
        self.send(Message::text(text))
    }

    /// Enqueues a binary message.
    pub fn send_binary(&self, data: Vec<u8>) -> (out: Result<()>)
        ensures
            out is Ok || (out matches Err(Error::Custom(text)) && text@ == send_failure_text()),
    {
        self.send(Message::binary(data))
    }

    /// Enqueues a value as a JSON text message. It fails with a `Json`
    /// error if the value cannot be serialized, and then nothing is
    /// enqueued; otherwise as [`send`](Self::send) does.
    pub fn send_json<T: serde::Serialize>(&self, data: &T) -> (out: Result<()>)
        ensures
            out is Ok || out matches Err(Error::Json(_)) || (out matches Err(Error::Custom(text))
                && text@ == send_failure_text()),
    {
        match json_message(json_text(data)) {
            Ok(message) => self.send(message),
            Err(e) => Err(e),
        }
    }

    /// The id of this connection.
    pub fn id(&self) -> (id: &ConnectionId)
        ensures
            id@ == self@.id,
    {
        &self.id
    }

    /// The metadata of this connection.
    pub fn info(&self) -> (info: &ConnectionInfo)
        ensures
            info@ == self@.info,
    {
        &self.info
    }
}

/// What a registry table holds: the model of the connection stored under
/// each id.
pub uninterp spec fn registry_entries(table: DashMap<ConnectionId, Connection>) -> Map<
    Seq<char>,
    ConnectionView,
>;

/// Creates an empty table with `DashMap::new`.
#[verifier::external_body]
fn registry_new() -> (table: DashMap<ConnectionId, Connection>)
    ensures
        registry_entries(table) == (Map::<Seq<char>, ConnectionView>::empty()),
{
    DashMap::new()
}

/// Stores a connection under a key with `DashMap::insert`, which replaces
/// what the key held before and leaves every other key as it was.
#[verifier::external_body]
fn registry_insert(
    table: &mut DashMap<ConnectionId, Connection>,
    key: ConnectionId,
    conn: Connection,
)
    ensures
        registry_entries(*final(table)) == registry_entries(*old(table)).insert(key@, conn@),
{
    table.insert(key, conn);
}

/// Takes the entry of a key out with `DashMap::remove` and hands back the
/// connection it held, if the key was present; every other key stays.
#[verifier::external_body]
fn registry_remove(table: &mut DashMap<ConnectionId, Connection>, key: &str) -> (removed: Option<
    Connection,
>)
    ensures
        registry_entries(*final(table)) == registry_entries(*old(table)).remove(key@),
        match removed {
            Some(conn) => registry_entries(*old(table)).dom().contains(key@) && conn@
                == registry_entries(*old(table))[key@],
            None => !registry_entries(*old(table)).dom().contains(key@),
        },
{
    match table.remove(key) {
        Some((_, conn)) => Some(conn),
        None => None,
    }
}

/// Looks a key up with `DashMap::get` and hands back a clone of the
/// connection stored under it, if there is one.
#[verifier::external_body]
fn registry_get(table: &DashMap<ConnectionId, Connection>, key: &str) -> (found: Option<Connection>)
    ensures
        match found {
            Some(conn) => registry_entries(*table).dom().contains(key@) && conn@
                == registry_entries(*table)[key@],
            None => !registry_entries(*table).dom().contains(key@),
        },
{
    table.get(key).map(|entry| entry.value().clone())
}

/// The number of entries, as `DashMap::len` reports it.
#[verifier::external_body]
fn registry_len(table: &DashMap<ConnectionId, Connection>) -> (n: usize)
    ensures
        registry_entries(*table).dom().finite() ==> n == registry_entries(*table).dom().len(),
{
    table.len()
}

/// Walks the table with `DashMap::iter` and hands back a clone of every entry.
/// Each key of the table comes exactly once, with the connection stored under
/// it; the order is not determined.
#[verifier::external_body]
fn registry_snapshot(table: &DashMap<ConnectionId, Connection>) -> (all: Vec<
    (ConnectionId, Connection),
>)
    ensures
        forall|i: int, j: int| 0 <= i < j < all@.len() ==> all@[i].0@ != all@[j].0@,
        forall|i: int|
            0 <= i < all@.len() ==> registry_entries(*table).dom().contains(#[trigger] all@[i].0@)
                && all@[i].1@ == registry_entries(*table)[all@[i].0@],
        forall|id: Seq<char>| #[trigger]
            registry_entries(*table).dom().contains(id) ==> exists|i: int|
                0 <= i < all@.len() && all@[i].0@ == id,
{
    table.iter().map(|entry| (entry.key().clone(), entry.value().clone())).collect()
}

/// The registry of live connections, indexed by connection id.
pub struct ConnectionManager {
    connections: DashMap<ConnectionId, Connection>,
}

impl View for ConnectionManager {
    type V = Map<Seq<char>, ConnectionView>;

    closed spec fn view(&self) -> Map<Seq<char>, ConnectionView> {
        registry_entries(self.connections)
    }
}

impl ConnectionManager {
    /// The invariant of the registry: every connection is stored under its
    /// own id, and there are finitely many of them.
    pub open spec fn well_formed(&self) -> bool {
        &&& self@.dom().finite()
        &&& forall|id: Seq<char>| #[trigger] self@.dom().contains(id) ==> self@[id].id == id
    }

    /// Whether a connection with this id is registered.
    pub open spec fn contains(&self, id: Seq<char>) -> bool {
        self@.dom().contains(id)
    }

    /// Creates an empty registry.
    pub fn new() -> (manager: ConnectionManager)
        ensures
            manager.well_formed(),
            manager@ == (Map::<Seq<char>, ConnectionView>::empty()),
    {
        ConnectionManager { connections: registry_new() }
    }

    /// Registers a connection under its id and returns the number of
    /// registered connections afterwards. A connection that was registered
    /// under the same id is replaced.
    pub fn add(&mut self, conn: Connection) -> (count: usize)
        requires
            old(self).well_formed(),
        ensures
            final(self).well_formed(),
            final(self)@ == old(self)@.insert(conn@.id, conn@),
            count == final(self)@.len(),
            count == old(self)@.len() + (if old(self).contains(conn@.id) {
                0int
            } else {
                1int
            }),
    {
        let id = conn.id.clone();
        registry_insert(&mut self.connections, id, conn);
        registry_len(&self.connections)
    }

    /// Removes the connection with this id and returns it, if it was
    /// registered. Every other connection stays registered.
    pub fn remove(&mut self, id: &ConnectionId) -> (removed: Option<Connection>)
        requires
            old(self).well_formed(),
        ensures
            final(self).well_formed(),
            final(self)@ == old(self)@.remove(id@),
            match removed {
                Some(conn) => old(self).contains(id@) && conn@ == old(self)@[id@] && conn@.id
                    == id@,
                None => !old(self).contains(id@),
            },
            final(self)@.len() == old(self)@.len() - (if old(self).contains(id@) {
                1int
            } else {
                0int
            }),
    {
        registry_remove(&mut self.connections, id.as_str())
    }

    /// A handle of the connection with this id, if it is registered.
    pub fn get(&self, id: &ConnectionId) -> (found: Option<Connection>)
        requires
            self.well_formed(),
        ensures
            match found {
                Some(conn) => self.contains(id@) && conn@ == self@[id@] && conn@.id == id@,
                None => !self.contains(id@),
            },
    {
        registry_get(&self.connections, id.as_str())
    }

    /// The number of registered connections.
    pub fn count(&self) -> (n: usize)
        requires
            self.well_formed(),
        ensures
            n == self@.len(),
    {
        registry_len(&self.connections)
    }

    /// The ids of all registered connections, each once, in no particular
    /// order.
    pub fn all_ids(&self) -> (ids: Vec<ConnectionId>)
        requires
            self.well_formed(),
        ensures
            id_views(ids@).no_duplicates(),
            id_views(ids@).to_set() == self@.dom(),
            ids@.len() == self@.len(),
    {
        let all = registry_snapshot(&self.connections);
        let mut ids: Vec<ConnectionId> = Vec::new();
        let mut i: usize = 0;
        while i < all.len()
            invariant
                i <= all@.len(),
                ids@.len() == i,
                forall|j: int| 0 <= j < i ==> (#[trigger] ids@[j])@ == all@[j].0@,
            decreases all@.len() - i,
        {
            ids.push(all[i].0.clone());
            i += 1;
        }
        proof {
            let keys = snapshot_keys(all@);
            assert(id_views(ids@) =~= keys);
            lemma_snapshot_covers(all@, self@);
        }
        ids
    }

    /// Handles of all registered connections, each once, in no particular
    /// order.
    pub fn all_connections(&self) -> (conns: Vec<Connection>)
        requires
            self.well_formed(),
        ensures
            conns@.len() == self@.len(),
            forall|i: int, j: int|
                0 <= i < j < conns@.len() ==> (#[trigger] conns@[i])@.id
                    != (#[trigger] conns@[j])@.id,
            forall|i: int|
                0 <= i < conns@.len() ==> self.contains((#[trigger] conns@[i])@.id) && conns@[i]@
                    == self@[conns@[i]@.id],
    {
        let all = registry_snapshot(&self.connections);
        let mut conns: Vec<Connection> = Vec::new();
        let mut i: usize = 0;
        while i < all.len()
            invariant
                i <= all@.len(),
                conns@.len() == i,
                forall|j: int| 0 <= j < i ==> (#[trigger] conns@[j])@ == all@[j].1@,
            decreases all@.len() - i,
        {
            conns.push(all[i].1.clone());
            i += 1;
        }
        proof {
            lemma_snapshot_covers(all@, self@);
            assert forall|j: int| 0 <= j < conns@.len() implies (#[trigger] conns@[j])@.id
                == all@[j].0@ by {
                assert(self@.dom().contains(all@[j].0@));
            }
        }
        conns
    }

    /// Enqueues a copy of the message on the queue of every registered
    /// connection. A queue that refuses does not stop the others. The report
    /// lists every registered connection once, with the outcome of its
    /// enqueue.
    pub fn broadcast(&self, message: Message) -> (report: BroadcastReport)
        requires
            self.well_formed(),
        ensures
            report.targets().no_duplicates(),
            report.targets().to_set() == self@.dom(),
            report.targets().len() == self@.len(),
    {
        let all = registry_snapshot(&self.connections);
        let mut report = BroadcastReport::new();
        let mut i: usize = 0;
        while i < all.len()
            invariant
                i <= all@.len(),
                report.targets() == snapshot_keys(all@).take(i as int),
            decreases all@.len() - i,
        {
            let sent = all[i].1.send(message.clone());
            report.record(all[i].0.clone(), &sent);
            proof {
                assert(snapshot_keys(all@).take(i + 1) =~= snapshot_keys(all@).take(i as int).push(
                    all@[i as int].0@,
                ));
            }
            i += 1;
        }
        proof {
            assert(snapshot_keys(all@).take(all@.len() as int) =~= snapshot_keys(all@));
            lemma_snapshot_covers(all@, self@);
        }
        report
    }

    /// Enqueues a copy of the message on the queue of every registered
    /// connection but the one with id `except_id`. The report lists every
    /// other registered connection once.
    pub fn broadcast_except(&self, except_id: &ConnectionId, message: Message) -> (report:
        BroadcastReport)
        requires
            self.well_formed(),
        ensures
            report.targets().no_duplicates(),
            report.targets().to_set() == self@.dom().remove(except_id@),
            !report.targets().contains(except_id@),
    {
        let all = registry_snapshot(&self.connections);
        let mut report = BroadcastReport::new();
        let mut i: usize = 0;
        while i < all.len()
            invariant
                i <= all@.len(),
                report.targets() == without(snapshot_keys(all@).take(i as int), except_id@),
            decreases all@.len() - i,
        {
            proof {
                assert(snapshot_keys(all@).take(i + 1) =~= snapshot_keys(all@).take(i as int).push(
                    all@[i as int].0@,
                ));
                assert(snapshot_keys(all@).take(i + 1).drop_last() =~= snapshot_keys(all@).take(
                    i as int,
                ));
            }
            if all[i].0 != *except_id {
                let sent = all[i].1.send(message.clone());
                report.record(all[i].0.clone(), &sent);
            }
            i += 1;
        }
        proof {
            assert(snapshot_keys(all@).take(all@.len() as int) =~= snapshot_keys(all@));
            lemma_snapshot_covers(all@, self@);
            lemma_without(snapshot_keys(all@), except_id@);
        }
        report
    }

    /// Enqueues a copy of the message on the queue of each listed
    /// connection, in the order of the list. Ids that are not registered are
    /// passed over; the report lists the others as they were listed.
    pub fn broadcast_to(&self, ids: &[ConnectionId], message: Message) -> (report: BroadcastReport)
        requires
            self.well_formed(),
        ensures
            report.targets() == registered_among(id_views(ids@), self@.dom()),
    {
        let mut report = BroadcastReport::new();
        let mut i: usize = 0;
        while i < ids.len()
            invariant
                i <= ids@.len(),
                self.well_formed(),
                report.targets() == registered_among(id_views(ids@).take(i as int), self@.dom()),
            decreases ids@.len() - i,
        {
            proof {
                assert(id_views(ids@).take(i + 1).drop_last() =~= id_views(ids@).take(i as int));
            }
            if let Some(conn) = self.get(&ids[i]) {
                let sent = conn.send(message.clone());
                report.record(ids[i].clone(), &sent);
            }
            i += 1;
        }
        proof {
            assert(id_views(ids@).take(ids@.len() as int) =~= id_views(ids@));
        }
        report
    }
}

impl Default for ConnectionManager {
    fn default() -> (manager: ConnectionManager)
        ensures
            manager.well_formed(),
            manager@ == (Map::<Seq<char>, ConnectionView>::empty()),
    {
        ConnectionManager::new()
    }
}

/// The ids that a sequence of id strings stands for.
pub open spec fn id_views(ids: Seq<ConnectionId>) -> Seq<Seq<char>> {
    ids.map_values(|id: ConnectionId| id@)
}

/// The keys of a snapshot of the registry, in the order of the snapshot.
pub open spec fn snapshot_keys(all: Seq<(ConnectionId, Connection)>) -> Seq<Seq<char>> {
    all.map_values(|entry: (ConnectionId, Connection)| entry.0@)
}

/// The ids of a list without every occurrence of one id, in the order of
/// the list.
pub open spec fn without(ids: Seq<Seq<char>>, skipped: Seq<char>) -> Seq<Seq<char>>
    decreases ids.len(),
{
    if ids.len() == 0 {
        ids
    } else if ids.last() == skipped {
        without(ids.drop_last(), skipped)
    } else {
        without(ids.drop_last(), skipped).push(ids.last())
    }
}

/// The ids of a list that are registered, in the order of the list and as
/// often as they are listed.
pub open spec fn registered_among(ids: Seq<Seq<char>>, registered: Set<Seq<char>>) -> Seq<
    Seq<char>,
>
    decreases ids.len(),
{
    if ids.len() == 0 {
        ids
    } else if registered.contains(ids.last()) {
        registered_among(ids.drop_last(), registered).push(ids.last())
    } else {
        registered_among(ids.drop_last(), registered)
    }
}

/// Leaving one id out of a list keeps all other ids, each as often as it
/// was there.
pub proof fn lemma_without(ids: Seq<Seq<char>>, skipped: Seq<char>)
    ensures
        !without(ids, skipped).contains(skipped),
        forall|id: Seq<char>|
            id != skipped ==> (#[trigger] without(ids, skipped).contains(id) <==> ids.contains(id)),
        ids.no_duplicates() ==> without(ids, skipped).no_duplicates(),
    decreases ids.len(),
{
    if ids.len() > 0 {
        let rest = ids.drop_last();
        let kept = without(rest, skipped);
        let out = without(ids, skipped);
        lemma_without(rest, skipped);
        assert forall|id: Seq<char>| id != skipped implies (out.contains(id) <==> ids.contains(
            id,
        )) by {
            if ids.contains(id) {
                let k = choose|k: int| 0 <= k < ids.len() && ids[k] == id;
                if k < rest.len() {
                    assert(rest[k] == id);
                    assert(kept.contains(id));
                    let m = choose|m: int| 0 <= m < kept.len() && kept[m] == id;
                    assert(out[m] == id);
                } else {
                    assert(out.last() == id);
                }
            }
            if out.contains(id) {
                let m = choose|m: int| 0 <= m < out.len() && out[m] == id;
                if m < kept.len() {
                    assert(kept.contains(id));
                    assert(rest.contains(id));
                }
            }
        }
        if out.contains(skipped) {
            let m = choose|m: int| 0 <= m < out.len() && out[m] == skipped;
            assert(kept.contains(skipped));
        }
        if ids.no_duplicates() && ids.last() != skipped && kept.contains(ids.last()) {
            let k = choose|k: int| 0 <= k < rest.len() && rest[k] == ids.last();
            assert(ids[k] == ids[ids.len() - 1]);
        }
    }
}

/// A snapshot that holds every key of a finite map exactly once lists the
/// whole domain: as many keys as the map has, and no other.
pub proof fn lemma_snapshot_covers(
    all: Seq<(ConnectionId, Connection)>,
    entries: Map<Seq<char>, ConnectionView>,
)
    requires
        entries.dom().finite(),
        forall|i: int, j: int| 0 <= i < j < all.len() ==> all[i].0@ != all[j].0@,
        forall|i: int| 0 <= i < all.len() ==> entries.dom().contains(#[trigger] all[i].0@),
        forall|id: Seq<char>| #[trigger]
            entries.dom().contains(id) ==> exists|i: int| 0 <= i < all.len() && all[i].0@ == id,
    ensures
        snapshot_keys(all).no_duplicates(),
        snapshot_keys(all).to_set() == entries.dom(),
        all.len() == entries.len(),
{
    let keys = snapshot_keys(all);
    assert forall|i: int, j: int|
        0 <= i < keys.len() && 0 <= j < keys.len() && i != j implies keys[i] != keys[j] by {
        if i < j {
            assert(all[i].0@ != all[j].0@);
        } else {
            assert(all[j].0@ != all[i].0@);
        }
    }
    assert forall|id: Seq<char>| keys.to_set().contains(id) <==> entries.dom().contains(id) by {
        if keys.to_set().contains(id) {
            let i = choose|i: int| 0 <= i < keys.len() && keys[i] == id;
            assert(entries.dom().contains(all[i].0@));
        }
        if entries.dom().contains(id) {
            let i = choose|i: int| 0 <= i < all.len() && all[i].0@ == id;
            assert(keys[i] == id);
        }
    }
    assert(keys.to_set() =~= entries.dom());
    keys.unique_seq_to_set();
}

/// One attempt to enqueue a message on a connection.
#[derive(Debug)]
pub struct Delivery {
    /// The id of the connection.
    pub id: ConnectionId,
    /// Whether the queue of the connection accepted the message.
    pub accepted: bool,
}

/// The outcome of a broadcast: every attempt, in the order it was made.
#[derive(Debug)]
pub struct BroadcastReport {
    /// The attempts of the broadcast.
    pub attempts: Vec<Delivery>,
}

/// The number of accepted attempts in a sequence of attempts.
pub open spec fn accepted_count(attempts: Seq<Delivery>) -> nat
    decreases attempts.len(),
{
    if attempts.len() == 0 {
        0
    } else {
        accepted_count(attempts.drop_last()) + (if attempts.last().accepted {
            1nat
        } else {
            0nat
        })
    }
}

/// No more attempts are accepted than were made.
pub proof fn lemma_accepted_count_bound(attempts: Seq<Delivery>)
    ensures
        accepted_count(attempts) <= attempts.len(),
    decreases attempts.len(),
{
    if attempts.len() > 0 {
        lemma_accepted_count_bound(attempts.drop_last());
    }
}

impl BroadcastReport {
    /// The ids of the connections that the broadcast tried, in order.
    pub open spec fn targets(&self) -> Seq<Seq<char>> {
        self.attempts@.map_values(|d: Delivery| d.id@)
    }

    /// A report of no attempts.
    pub fn new() -> (report: BroadcastReport)
        ensures
            report.attempts@.len() == 0,
            report.targets() == Seq::<Seq<char>>::empty(),
    {
        BroadcastReport { attempts: Vec::new() }
    }

    /// Adds the attempt on the connection `id` with the outcome `sent` at
    /// the end of the report.
    pub fn record(&mut self, id: ConnectionId, sent: &Result<()>)
        ensures
            final(self).attempts@.len() == old(self).attempts@.len() + 1,
            final(self).attempts@.take(old(self).attempts@.len() as int) == old(self).attempts@,
            final(self).attempts@.last().id@ == id@,
            final(self).attempts@.last().accepted == (sent is Ok),
            final(self).targets() == old(self).targets().push(id@),
    {
        let accepted = sent.is_ok();
        self.attempts.push(Delivery { id, accepted });
    }

    /// The number of connections whose queue accepted the message.
    pub fn delivered(&self) -> (n: usize)
        ensures
            n == accepted_count(self.attempts@),
    {
        let mut n: usize = 0;
        let mut i: usize = 0;
        while i < self.attempts.len()
            invariant
                i <= self.attempts@.len(),
                n == accepted_count(self.attempts@.take(i as int)),
                n <= i,
            decreases self.attempts@.len() - i,
        {
            proof {
                assert(self.attempts@.take(i + 1).drop_last() =~= self.attempts@.take(i as int));
            }
            if self.attempts[i].accepted {
                n += 1;
            }
            i += 1;
        }
        proof {
            assert(self.attempts@.take(self.attempts@.len() as int) =~= self.attempts@);
        }
        n
    }

    /// The number of connections whose queue refused the message.
    pub fn failed(&self) -> (n: usize)
        ensures
            n == self.attempts@.len() - accepted_count(self.attempts@),
    {
        proof {
            lemma_accepted_count_bound(self.attempts@);
        }
        self.attempts.len() - self.delivered()
    }
}

} // verus!
