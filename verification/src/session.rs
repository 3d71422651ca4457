//! The session runtime as a state machine.
//!
//! A session starts when the handshake of a connection is done and ends when
//! its read loop or its write loop stops. The loops themselves wait on the
//! socket and on the outbound queue, which is left to the caller: the
//! caller reports what happened as a [`SessionEvent`], and [`Session::step`]
//! answers with the [`SessionAction`] to perform. The machine registers the
//! connection before it asks for the connect hook, and removes it before it
//! asks for the disconnect hook.

use crate::connection::{
    queue_new, Connection, ConnectionId, ConnectionInfoView, ConnectionManager, ConnectionView,
};
use crate::message::{frame_of, FrameView, Message, MessageView};
use tokio::sync::mpsc::UnboundedReceiver;
use tokio_tungstenite::tungstenite::Message as TungsteniteMessage;
use vstd::prelude::*;

verus! {

/// The phase of a session.
#[derive(Debug, Clone, Copy, PartialEq, Eq, Structural)]
pub enum SessionPhase {
    /// The handshake is done and the connection is not registered yet.
    Pending,
    /// The connection is registered and its loops run.
    Running,
    /// A loop has stopped and the connection is removed.
    Closed,
}

/// What happened in a session.
pub enum SessionEvent {
    /// The handshake is done: the peer address and the time of acceptance.
    Established { addr: String, connected_at: u64 },
    /// The read loop received a frame.
    Inbound(TungsteniteMessage),
    /// The read loop met a transport error.
    InboundFailed,
    /// The stream of inbound frames ended.
    InboundEnded,
    /// The write loop took a message from the outbound queue.
    Outbound(Message),
    /// The outbound queue was closed.
    OutboundEnded,
    /// Writing a frame to the socket failed.
    WriteFailed,
}

/// What the caller is to do next.
pub enum SessionAction {
    /// Run the connect hook for the connection, then start the two loops.
    /// `count` is the number of registered connections, and `outbound` the
    /// consumer half of the outbound queue of the connection, from which
    /// the write loop takes the messages to write.
    Connected { id: ConnectionId, count: usize, outbound: UnboundedReceiver<Message> },
    /// Hand the message to the dispatch of the router.
    Dispatch { id: ConnectionId, message: Message },
    /// Write the frame to the socket.
    Write(TungsteniteMessage),
    /// Stop both loops, then run the disconnect hook for the connection.
    Disconnected { id: ConnectionId },
    /// Nothing.
    Ignore,
}

/// The mathematical model of a [`SessionEvent`].
pub enum EventView {
    /// The handshake is done.
    Established,
    /// A frame was received.
    Inbound(FrameView),
    /// The read loop met a transport error.
    InboundFailed,
    /// The stream of inbound frames ended.
    InboundEnded,
    /// A message was taken from the outbound queue.
    Outbound(MessageView),
    /// The outbound queue was closed.
    OutboundEnded,
    /// Writing a frame failed.
    WriteFailed,
}

/// The mathematical model of a [`SessionAction`].
pub enum ActionView {
    /// Run the connect hook.
    Connected,
    /// Dispatch a message.
    Dispatch(MessageView),
    /// Write a frame.
    Write(FrameView),
    /// Run the disconnect hook.
    Disconnected,
    /// Nothing.
    Ignore,
}

impl View for SessionEvent {
    type V = EventView;

    open spec fn view(&self) -> EventView {
        match self {
            SessionEvent::Established { .. } => EventView::Established,
            SessionEvent::Inbound(frame) => EventView::Inbound(frame_of(*frame)),
            SessionEvent::InboundFailed => EventView::InboundFailed,
            SessionEvent::InboundEnded => EventView::InboundEnded,
            SessionEvent::Outbound(message) => EventView::Outbound(message@),
            SessionEvent::OutboundEnded => EventView::OutboundEnded,
            SessionEvent::WriteFailed => EventView::WriteFailed,
        }
    }
}

impl View for SessionAction {
    type V = ActionView;

    open spec fn view(&self) -> ActionView {
        match self {
            SessionAction::Connected { .. } => ActionView::Connected,
            SessionAction::Dispatch { message, .. } => ActionView::Dispatch(message@),
            SessionAction::Write(frame) => ActionView::Write(frame_of(*frame)),
            SessionAction::Disconnected { .. } => ActionView::Disconnected,
            SessionAction::Ignore => ActionView::Ignore,
        }
    }
}

/// Whether an event stops a running session: a close frame, the end or a
/// failure of the inbound stream, the end of the outbound queue, or a
/// failed write.
pub open spec fn stops(event: EventView) -> bool {
    match event {
        EventView::Inbound(frame) => frame is Close,
        EventView::InboundFailed => true,
        EventView::InboundEnded => true,
        EventView::OutboundEnded => true,
        EventView::WriteFailed => true,
        _ => false,
    }
}

/// The phase that a session is in after an event.
pub open spec fn next_phase(phase: SessionPhase, event: EventView) -> SessionPhase {
    match phase {
        SessionPhase::Pending => if event is Established {
            SessionPhase::Running
        } else {
            SessionPhase::Pending
        },
        SessionPhase::Running => if stops(event) {
            SessionPhase::Closed
        } else {
            SessionPhase::Running
        },
        SessionPhase::Closed => SessionPhase::Closed,
    }
}

/// The action that a session in a phase answers an event with.
pub open spec fn action_for(phase: SessionPhase, event: EventView) -> ActionView {
    match phase {
        SessionPhase::Pending => if event is Established {
            ActionView::Connected
        } else {
            ActionView::Ignore
        },
        SessionPhase::Running => match event {
            EventView::Established => ActionView::Ignore,
            EventView::Inbound(frame) => if frame is Close {
                ActionView::Disconnected
            } else {
                ActionView::Dispatch(frame.message())
            },
            EventView::Outbound(message) => ActionView::Write(message.frame()),
            _ => ActionView::Disconnected,
        },
        SessionPhase::Closed => ActionView::Ignore,
    }
}

/// The phase of a session that started in `start` after a sequence of
/// events.
pub open spec fn phase_after(start: SessionPhase, events: Seq<EventView>) -> SessionPhase
    decreases events.len(),
{
    if events.len() == 0 {
        start
    } else {
        next_phase(phase_after(start, events.drop_last()), events.last())
    }
}

/// The action that a fresh session answers the event at position `k` of a
/// sequence of events with.
pub open spec fn action_at(events: Seq<EventView>, k: int) -> ActionView {
    action_for(phase_after(SessionPhase::Pending, events.take(k)), events[k])
}

/// The order of the phases in the life of a session.
pub open spec fn phase_rank(phase: SessionPhase) -> int {
    match phase {
        SessionPhase::Pending => 0,
        SessionPhase::Running => 1,
        SessionPhase::Closed => 2,
    }
}

/// The ids of the registry after a fresh session with the id `id` has seen
/// a sequence of events, where `members` were registered before.
pub open spec fn members_after(
    members: Set<Seq<char>>,
    id: Seq<char>,
    events: Seq<EventView>,
) -> Set<Seq<char>>
    decreases events.len(),
{
    if events.len() == 0 {
        members
    } else {
        let before = members_after(members, id, events.drop_last());
        match action_at(events, events.len() - 1) {
            ActionView::Connected => before.insert(id),
            ActionView::Disconnected => before.remove(id),
            _ => before,
        }
    }
}

/// A session never goes back to an earlier phase.
pub proof fn lemma_phase_advances(start: SessionPhase, events: Seq<EventView>, i: int, j: int)
    requires
        0 <= i <= j <= events.len(),
    ensures
        phase_rank(phase_after(start, events.take(i))) <= phase_rank(
            phase_after(start, events.take(j)),
        ),
    decreases j - i,
{
    if i < j {
        lemma_phase_advances(start, events, i, j - 1);
        assert(events.take(j).drop_last() =~= events.take(j - 1));
    }
}

/// Each hook is asked for at most once, and the disconnect hook only after
/// the connect hook: of two actions of a session, both cannot ask for the
/// connect hook, both cannot ask for the disconnect hook, and the earlier
/// cannot ask for the disconnect hook if the later asks for the connect
/// hook. The disconnect hook is asked for only after the connect hook.
pub proof fn lemma_hooks_once_in_order(events: Seq<EventView>, i: int, j: int)
    requires
        0 <= i < j < events.len(),
    ensures
        !(action_at(events, i) is Connected && action_at(events, j) is Connected),
        !(action_at(events, i) is Disconnected && action_at(events, j) is Disconnected),
        !(action_at(events, i) is Disconnected && action_at(events, j) is Connected),
{
    lemma_phase_advances(SessionPhase::Pending, events, i + 1, j);
    assert(events.take(i + 1).drop_last() =~= events.take(i));
}

/// The disconnect hook is asked for only after the connect hook was.
pub proof fn lemma_connect_precedes_disconnect(events: Seq<EventView>, j: int)
    requires
        0 <= j < events.len(),
        action_at(events, j) is Disconnected,
    ensures
        exists|i: int| 0 <= i < j && action_at(events, i) is Connected,
{
    lemma_running_was_connected(events, j);
}

/// A session that runs before the event at position `k` was asked to run
/// its connect hook at an earlier position.
pub proof fn lemma_running_was_connected(events: Seq<EventView>, k: int)
    requires
        0 <= k <= events.len(),
        phase_after(SessionPhase::Pending, events.take(k)) is Running,
    ensures
        exists|i: int| 0 <= i < k && action_at(events, i) is Connected,
    decreases k,
{
    if k > 0 {
        assert(events.take(k).drop_last() =~= events.take(k - 1));
        let before = phase_after(SessionPhase::Pending, events.take(k - 1));
        if before is Running {
            lemma_running_was_connected(events, k - 1);
            let i = choose|i: int| 0 <= i < k - 1 && action_at(events, i) is Connected;
            assert(0 <= i < k && action_at(events, i) is Connected);
        } else {
            assert(action_at(events, k - 1) is Connected);
        }
    }
}

/// A session that is closed before the event at position `k` was asked to
/// run its disconnect hook at an earlier position.
pub proof fn lemma_closed_was_disconnected(events: Seq<EventView>, k: int)
    requires
        0 <= k <= events.len(),
        phase_after(SessionPhase::Pending, events.take(k)) is Closed,
    ensures
        exists|j: int| 0 <= j < k && action_at(events, j) is Disconnected,
    decreases k,
{
    if k > 0 {
        assert(events.take(k).drop_last() =~= events.take(k - 1));
        let before = phase_after(SessionPhase::Pending, events.take(k - 1));
        if before is Closed {
            lemma_closed_was_disconnected(events, k - 1);
            let j = choose|j: int| 0 <= j < k - 1 && action_at(events, j) is Disconnected;
            assert(0 <= j < k && action_at(events, j) is Disconnected);
        } else {
            assert(action_at(events, k - 1) is Disconnected);
        }
    }
}

/// A session that is started and then stopped runs both hooks: where the
/// handshake is reported at position `s` and an event that stops a loop at
/// a later position `t`, the connect hook was asked for at `s` or before,
/// and the disconnect hook at `t` or before. With
/// [`lemma_hooks_once_in_order`] each hook runs exactly once.
pub proof fn lemma_session_runs_hooks(events: Seq<EventView>, s: int, t: int)
    requires
        0 <= s < t < events.len(),
        events[s] is Established,
        stops(events[t]),
    ensures
        exists|i: int| 0 <= i <= s && action_at(events, i) is Connected,
        exists|j: int| 0 <= j <= t && action_at(events, j) is Disconnected,
{
    let at_start = phase_after(SessionPhase::Pending, events.take(s));
    if at_start is Pending {
        assert(action_at(events, s) is Connected);
    } else if at_start is Running {
        lemma_running_was_connected(events, s);
        let i = choose|i: int| 0 <= i < s && action_at(events, i) is Connected;
        assert(0 <= i <= s && action_at(events, i) is Connected);
    } else {
        lemma_closed_was_disconnected(events, s);
        let j = choose|j: int| 0 <= j < s && action_at(events, j) is Disconnected;
        lemma_connect_precedes_disconnect(events, j);
        let i = choose|i: int| 0 <= i < j && action_at(events, i) is Connected;
        assert(0 <= i <= s && action_at(events, i) is Connected);
    }
    assert(events.take(s + 1).drop_last() =~= events.take(s));
    lemma_phase_advances(SessionPhase::Pending, events, s + 1, t);
    let at_stop = phase_after(SessionPhase::Pending, events.take(t));
    if at_stop is Running {
        assert(action_at(events, t) is Disconnected);
    } else {
        lemma_closed_was_disconnected(events, t);
        let j = choose|j: int| 0 <= j < t && action_at(events, j) is Disconnected;
        assert(0 <= j <= t && action_at(events, j) is Disconnected);
    }
}

/// Messages are dispatched and frames are written only while the session
/// runs: after the connect hook was asked for, and not after the
/// disconnect hook was.
pub proof fn lemma_work_only_while_running(events: Seq<EventView>, k: int)
    requires
        0 <= k < events.len(),
        action_at(events, k) is Dispatch || action_at(events, k) is Write,
    ensures
        exists|i: int| 0 <= i < k && action_at(events, i) is Connected,
        forall|i: int| 0 <= i < k ==> !(#[trigger] action_at(events, i) is Disconnected),
{
    lemma_running_was_connected(events, k);
    assert forall|i: int| 0 <= i < k implies !(#[trigger] action_at(events, i) is Disconnected) by {
        lemma_phase_advances(SessionPhase::Pending, events, i + 1, k);
        assert(events.take(i + 1).drop_last() =~= events.take(i));
    }
}

/// Frames are written in the order in which the messages leave the
/// outbound queue: every write is the answer to the message that was taken
/// from the queue at that step, and is the frame of that message; and while
/// the session runs, every message that leaves the queue is written.
pub proof fn lemma_writes_follow_queue(events: Seq<EventView>, k: int)
    requires
        0 <= k < events.len(),
    ensures
        action_at(events, k) matches ActionView::Write(frame) ==> (events[k] is Outbound
            && frame == events[k]->Outbound_0.frame()),
        (events[k] is Outbound && phase_after(SessionPhase::Pending, events.take(k)) is Running)
            ==> action_at(events, k) is Write,
{
}

/// Messages are dispatched in the order in which their frames arrive:
/// every dispatch is the answer to the frame that arrived at that step, and
/// hands on the message of that frame; and while the session runs, every
/// frame but a close frame is dispatched.
pub proof fn lemma_dispatch_follows_arrival(events: Seq<EventView>, k: int)
    requires
        0 <= k < events.len(),
    ensures
        action_at(events, k) matches ActionView::Dispatch(message) ==> (events[k] is Inbound
            && !(events[k]->Inbound_0 is Close) && message == events[k]->Inbound_0.message()),
        (events[k] matches EventView::Inbound(frame) && !(frame is Close) && phase_after(
            SessionPhase::Pending,
            events.take(k),
        ) is Running) ==> action_at(events, k) is Dispatch,
{
}

/// Once the disconnect hook was asked for, the session does nothing more:
/// no message is dispatched for it and no frame is written.
pub proof fn lemma_nothing_after_disconnect(events: Seq<EventView>, i: int, j: int)
    requires
        0 <= i < j < events.len(),
        action_at(events, i) is Disconnected,
    ensures
        action_at(events, j) is Ignore,
{
    lemma_phase_advances(SessionPhase::Pending, events, i + 1, j);
    assert(events.take(i + 1).drop_last() =~= events.take(i));
}

/// The connection of a session is registered exactly while the session
/// runs, and the session leaves every other connection alone.
pub proof fn lemma_registered_while_running(
    members: Set<Seq<char>>,
    id: Seq<char>,
    events: Seq<EventView>,
)
    requires
        !members.contains(id),
    ensures
        members_after(members, id, events).contains(id) <==> phase_after(
            SessionPhase::Pending,
            events,
        ) is Running,
        forall|other: Seq<char>|
            other != id ==> (#[trigger] members_after(members, id, events).contains(other)
                <==> members.contains(other)),
    decreases events.len(),
{
    if events.len() > 0 {
        lemma_registered_while_running(members, id, events.drop_last());
    }
}

/// The session of one connection.
pub struct Session {
    id: ConnectionId,
    phase: SessionPhase,
}

/// The metadata of the connection that a session registers.
pub open spec fn established_info(
    id: Seq<char>,
    addr: Seq<char>,
    connected_at: u64,
) -> ConnectionInfoView {
    ConnectionInfoView { id, addr, connected_at, protocol: None }
}

/// What an action of the session of the connection `id` does to the
/// registry. With the connect hook the connection is registered, with the
/// metadata that the event gives; with the disconnect hook it is removed;
/// otherwise the registry stays as it is. Every other connection stays as it
/// is in any case.
pub open spec fn registry_effect(
    before: Map<Seq<char>, ConnectionView>,
    after: Map<Seq<char>, ConnectionView>,
    id: Seq<char>,
    event: SessionEvent,
    action: ActionView,
) -> bool {
    match action {
        ActionView::Connected => {
            &&& after == before.insert(id, after[id])
            &&& after[id].id == id
            &&& event matches SessionEvent::Established { addr, connected_at }
            &&& after[id].info == established_info(id, addr@, connected_at)
        },
        ActionView::Disconnected => after == before.remove(id),
        _ => after == before,
    }
}

impl Session {
    /// The id of the connection of this session.
    pub closed spec fn id_view(&self) -> Seq<char> {
        self.id@
    }

    /// The phase of this session.
    pub closed spec fn phase_view(&self) -> SessionPhase {
        self.phase
    }

    /// Creates the session of the connection `id`, before its start.
    pub fn new(id: ConnectionId) -> (session: Session)
        ensures
            session.id_view() == id@,
            session.phase_view() == SessionPhase::Pending,
    {
        Session { id, phase: SessionPhase::Pending }
    }

    /// The id of the connection of this session.
    pub fn id(&self) -> (id: &ConnectionId)
        ensures
            id@ == self.id_view(),
    {
        &self.id
    }

    /// The phase of this session.
    pub fn phase(&self) -> (phase: SessionPhase)
        ensures
            phase == self.phase_view(),
    {
        self.phase
    }

    /// Answers an event with the action to perform.
    ///
    /// At its start the session creates the outbound queue, registers its
    /// connection with the producer half, and asks for the connect hook.
    /// While it runs, it has every inbound message but a close frame
    /// dispatched and every queued message written. At the first event that
    /// stops a loop it removes its connection and asks for the disconnect
    /// hook. After that it ignores every event.
    pub fn step(&mut self, manager: &mut ConnectionManager, event: SessionEvent) -> (action:
        SessionAction)
        requires
            old(manager).well_formed(),
        ensures
            final(manager).well_formed(),
            final(self).id_view() == old(self).id_view(),
            final(self).phase_view() == next_phase(old(self).phase_view(), event@),
            action@ == action_for(old(self).phase_view(), event@),
            registry_effect(
                old(manager)@,
                final(manager)@,
                old(self).id_view(),
                event,
                action@,
            ),
            action matches SessionAction::Connected { id, count, .. } ==> id@ == old(
                self,
            ).id_view() && count == final(manager)@.len(),
            action matches SessionAction::Dispatch { id, .. } ==> id@ == old(self).id_view(),
            action matches SessionAction::Disconnected { id } ==> id@ == old(self).id_view(),
    {
        match self.phase {
            SessionPhase::Pending => match event {
                SessionEvent::Established { addr, connected_at } => {
                    let (sender, outbound) = queue_new();
                    let conn = Connection::new(self.id.clone(), addr, connected_at, sender);
                    let count = manager.add(conn);
                    self.phase = SessionPhase::Running;
                    SessionAction::Connected { id: self.id.clone(), count, outbound }
                },
                _ => SessionAction::Ignore,
            },
            SessionPhase::Running => match event {
                SessionEvent::Established { .. } => SessionAction::Ignore,
                SessionEvent::Inbound(frame) => {
                    let message = Message::from_tungstenite(frame);
                    if message.is_close() {
                        self.close(manager)
                    } else {
                        SessionAction::Dispatch { id: self.id.clone(), message }
                    }
                },
                SessionEvent::Outbound(message) => SessionAction::Write(message.into_tungstenite()),
                SessionEvent::InboundFailed => self.close(manager),
                SessionEvent::InboundEnded => self.close(manager),
                SessionEvent::OutboundEnded => self.close(manager),
                SessionEvent::WriteFailed => self.close(manager),
            },
            SessionPhase::Closed => SessionAction::Ignore,
        }
    }

    /// Ends the session: removes the connection from the registry.
    fn close(&mut self, manager: &mut ConnectionManager) -> (action: SessionAction)
        requires
            old(manager).well_formed(),
        ensures
            final(manager).well_formed(),
            final(self).id_view() == old(self).id_view(),
            final(self).phase_view() == SessionPhase::Closed,
            action matches SessionAction::Disconnected { id } && id@ == old(self).id_view(),
            final(manager)@ == old(manager)@.remove(old(self).id_view()),
    {
        manager.remove(&self.id);
        self.phase = SessionPhase::Closed;
        SessionAction::Disconnected { id: self.id.clone() }
    }
}

} // verus!
