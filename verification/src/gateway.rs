//! One connection's side of the protocol: what each inbound frame, each
//! timer tick and the end of the stream lead to.

use vstd::prelude::*;
use crate::heartbeat::{HeartbeatAction, HeartbeatMonitor, MonitorView};
use crate::codec::{decode, routed, Decoded, WsMessage};
use crate::message::{CommandView, ServerMessage};

verus! {

/// An inbound frame, reduced to what the protocol reads of it.
#[derive(Clone, Debug, PartialEq, Eq)]
pub enum Frame {
    Ping(Vec<u8>),
    Pong(Vec<u8>),
    /// A text frame: the parsed message, or `None` where the text did not
    /// parse.
    Text(Option<WsMessage>),
    Close,
    Other,
}

/// Model of what a frame leads to.
pub enum ActionView {
    Pong(Seq<u8>),
    Forward(CommandView),
    Dropped,
    Terminate(CommandView),
    Nothing,
}

/// What the connection does about a frame.
#[derive(Clone, Debug, PartialEq, Eq)]
pub enum FrameAction {
    /// Answer a probe with its payload.
    Pong(Vec<u8>),
    /// Hand the command to the coordinator.
    Forward(ServerMessage),
    /// The text was malformed: no reply, nothing forwarded.
    Dropped,
    /// The peer closed: acknowledge, hand the disconnect to the coordinator
    /// and stop.
    Terminate(ServerMessage),
    Nothing,
}

impl View for FrameAction {
    type V = ActionView;

    open spec fn view(&self) -> ActionView {
        match self {
            FrameAction::Pong(payload) => ActionView::Pong(payload@),
            FrameAction::Forward(command) => ActionView::Forward(command@),
            FrameAction::Dropped => ActionView::Dropped,
            FrameAction::Terminate(command) => ActionView::Terminate(command@),
            FrameAction::Nothing => ActionView::Nothing,
        }
    }
}

/// Model of what a timer tick leads to.
pub enum TickView {
    Ping,
    Terminate(CommandView),
    Stopped,
}

/// What the connection does at a timer tick.
#[derive(Clone, Debug, PartialEq, Eq)]
pub enum TickAction {
    /// Send a probe.
    Ping,
    /// The peer timed out: close, and hand the disconnect to the coordinator.
    Terminate(ServerMessage),
    /// The connection is closed already.
    Stopped,
}

impl View for TickAction {
    type V = TickView;

    open spec fn view(&self) -> TickView {
        match self {
            TickAction::Ping => TickView::Ping,
            TickAction::Terminate(command) => TickView::Terminate(command@),
            TickAction::Stopped => TickView::Stopped,
        }
    }
}

/// Model of a connection.
pub struct ConnectionView {
    pub player_id: Seq<char>,
    pub monitor: MonitorView,
}

impl ConnectionView {
    pub open spec fn disconnect(self) -> CommandView {
        CommandView::Disconnect(self.player_id)
    }

    /// What an open connection does about `frame`.
    pub open spec fn frame_action(self, frame: Frame) -> ActionView {
        match frame {
            Frame::Ping(payload) => ActionView::Pong(payload@),
            Frame::Pong(_) => ActionView::Nothing,
            Frame::Text(Some(msg)) => match routed(msg) {
                Some(command) => ActionView::Forward(command),
                None => ActionView::Dropped,
            },
            Frame::Text(None) => ActionView::Dropped,
            Frame::Close => ActionView::Terminate(self.disconnect()),
            Frame::Other => ActionView::Nothing,
        }
    }

    /// The connection after a frame arrived at `now`: any frame counts as
    /// activity, and a close frame closes.
    pub open spec fn after_frame(self, frame: Frame, now: nat) -> ConnectionView {
        ConnectionView {
            monitor: MonitorView { last_seen: now, closed: frame == Frame::Close },
            ..self
        }
    }

    /// What a timer tick at `now` leads to.
    pub open spec fn tick_action(self, now: nat) -> TickView {
        match self.monitor.check_action(now) {
            HeartbeatAction::Ping => TickView::Ping,
            HeartbeatAction::Close => TickView::Terminate(self.disconnect()),
            HeartbeatAction::Stopped => TickView::Stopped,
        }
    }
}

/// Something that happens to a connection.
pub enum EventView {
    Frame { frame: Frame, now: nat },
    Tick { now: nat },
    Shutdown,
}

impl ConnectionView {
    /// Whether the connection hands a disconnect to the coordinator at
    /// `event`.
    pub open spec fn disconnects_at(self, event: EventView) -> bool {
        !self.monitor.closed && match event {
            EventView::Frame { frame, now } => frame == Frame::Close,
            EventView::Tick { now } => self.monitor.timed_out(now),
            EventView::Shutdown => true,
        }
    }

    /// The connection after `event`.
    pub open spec fn after(self, event: EventView) -> ConnectionView {
        match event {
            EventView::Frame { frame, now } => if self.monitor.closed {
                self
            } else {
                self.after_frame(frame, now)
            },
            EventView::Tick { now } => ConnectionView {
                monitor: self.monitor.checked(now),
                ..self
            },
            EventView::Shutdown => ConnectionView {
                monitor: MonitorView { closed: true, ..self.monitor },
                ..self
            },
        }
    }

    /// How many disconnects the connection hands out over `events`.
    pub open spec fn disconnects(self, events: Seq<EventView>) -> nat
        decreases events.len(),
    {
        if events.len() == 0 {
            0
        } else {
            let here: nat = if self.disconnects_at(events[0]) {
                1
            } else {
                0
            };
            here + self.after(events[0]).disconnects(events.drop_first())
        }
    }
}

/// Whatever happens to a connection, in whatever order, it hands at most one
/// disconnect to the coordinator: none once it is closed, and exactly one
/// where it was open and the events end with the shutdown.
pub proof fn lemma_disconnected_once(connection: ConnectionView, events: Seq<EventView>)
    ensures
        connection.disconnects(events) <= 1,
        connection.monitor.closed ==> connection.disconnects(events) == 0,
        !connection.monitor.closed && events.len() > 0 && events.last() == EventView::Shutdown
            ==> connection.disconnects(events) == 1,
    decreases events.len(),
{
    if events.len() > 0 {
        let rest = events.drop_first();
        lemma_disconnected_once(connection.after(events[0]), rest);
        if rest.len() > 0 {
            assert(rest.last() == events.last());
        }
    }
}

/// Calls `uuid::Uuid::new_v4` and renders the identifier with `to_string`.
/// The identifier is random; what is claimed of it is its length, the 36
/// characters of the hyphenated form.
#[verifier::external_body]
fn random_id() -> (id: String)
    ensures
        id@.len() == 36,
{
    uuid::Uuid::new_v4().to_string()
}

/// The protocol state of one connection.
#[derive(Clone, Debug, PartialEq, Eq)]
pub struct Connection {
    player_id: String,
    monitor: HeartbeatMonitor,
}

impl View for Connection {
    type V = ConnectionView;

    closed spec fn view(&self) -> ConnectionView {
        ConnectionView { player_id: self.player_id@, monitor: self.monitor@ }
    }
}

impl Connection {
    /// A connection established at `now` for the player `player_id`, with
    /// the command that registers the player.
    pub fn with_id(player_id: String, now: u64) -> (opened: (Connection, ServerMessage))
        ensures
            opened.0@ == (ConnectionView {
                player_id: player_id@,
                monitor: MonitorView { last_seen: now as nat, closed: false },
            }),
            opened.1@ == (CommandView::Connect { id: player_id@ }),
    {
        let command = ServerMessage::Connect { id: player_id.clone() };
        (Connection { player_id, monitor: HeartbeatMonitor::new(now) }, command)
    }

    /// A connection established at `now` under a newly generated identifier.
    pub fn open(now: u64) -> (opened: (Connection, ServerMessage))
        ensures
            opened.0@.player_id.len() == 36,
            opened.0@.monitor == (MonitorView { last_seen: now as nat, closed: false }),
            opened.1@ == (CommandView::Connect { id: opened.0@.player_id }),
    {
        Connection::with_id(random_id(), now)
    }

    pub fn player_id(&self) -> (id: &String)
        ensures
            id@ == self@.player_id,
    {
        &self.player_id
    }

    pub fn is_closed(&self) -> (b: bool)
        ensures
            b == self@.monitor.closed,
    {
        self.monitor.is_closed()
    }

    /// Handles a frame that arrived at `now`. A closed connection ignores it.
    pub fn on_frame(&mut self, frame: Frame, now: u64) -> (action: FrameAction)
        ensures
            old(self)@.monitor.closed ==> action@ == ActionView::Nothing
                && final(self)@ == old(self)@,
            !old(self)@.monitor.closed ==> action@ == old(self)@.frame_action(frame)
                && final(self)@ == old(self)@.after_frame(frame, now as nat),
            final(self)@ == old(self)@.after(EventView::Frame { frame, now: now as nat }),
            action@ is Terminate == old(self)@.disconnects_at(
                EventView::Frame { frame, now: now as nat },
            ),
    {
        if self.monitor.is_closed() {
            return FrameAction::Nothing;
        }
        self.monitor.observe(now);
        match frame {
            Frame::Ping(payload) => FrameAction::Pong(payload),
            Frame::Pong(_) => FrameAction::Nothing,
            Frame::Text(Some(msg)) => match decode(msg) {
                Decoded::Command(command) => FrameAction::Forward(command),
                Decoded::Malformed => FrameAction::Dropped,
            },
            Frame::Text(None) => FrameAction::Dropped,
            Frame::Close => {
                self.monitor.shutdown();
                FrameAction::Terminate(ServerMessage::Disconnect(self.player_id.clone()))
            },
            Frame::Other => FrameAction::Nothing,
        }
    }

    /// A scheduled liveness check at `now`.
    pub fn on_tick(&mut self, now: u64) -> (action: TickAction)
        ensures
            action@ == old(self)@.tick_action(now as nat),
            final(self)@ == old(self)@.after(EventView::Tick { now: now as nat }),
            action@ is Terminate == old(self)@.disconnects_at(EventView::Tick { now: now as nat }),
    {
        match self.monitor.check(now) {
            HeartbeatAction::Ping => TickAction::Ping,
            HeartbeatAction::Close => TickAction::Terminate(
                ServerMessage::Disconnect(self.player_id.clone()),
            ),
            HeartbeatAction::Stopped => TickAction::Stopped,
        }
    }

    /// The stream ended or the shutdown signal fired: the disconnect for the
    /// coordinator, unless the connection was closed before.
    pub fn on_shutdown(&mut self) -> (command: Option<ServerMessage>)
        ensures
            final(self)@ == old(self)@.after(EventView::Shutdown),
            command is Some == old(self)@.disconnects_at(EventView::Shutdown),
            command is Some ==> command->0@ == old(self)@.disconnect(),
    {
        let was_closed = self.monitor.is_closed();
        self.monitor.shutdown();
        if was_closed {
            None
        } else {
            Some(ServerMessage::Disconnect(self.player_id.clone()))
        }
    }
}

} // verus!
