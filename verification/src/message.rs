//! Commands that reach the coordinator and events that leave it.

use vstd::prelude::*;
use crate::room::{Room, RoomView};

verus! {

/// Model of an event.
pub enum MessageView {
    Id(Seq<char>),
    GameState(RoomView),
    Error(Seq<char>),
    YourTurn(bool),
}

/// An event for one player.
#[derive(Clone, Debug, PartialEq, Eq)]
pub enum ClientMessage {
    /// Confirms the identifier the player is registered under.
    Id(String),
    /// The full state of a room.
    GameState(Room),
    /// A command of this player was turned down.
    Error(String),
    /// Whether the recipient moves next.
    YourTurn(bool),
}

impl View for ClientMessage {
    type V = MessageView;

    open spec fn view(&self) -> MessageView {
        match self {
            ClientMessage::Id(id) => MessageView::Id(id@),
            ClientMessage::GameState(room) => MessageView::GameState(room@),
            ClientMessage::Error(text) => MessageView::Error(text@),
            ClientMessage::YourTurn(is_turn) => MessageView::YourTurn(*is_turn),
        }
    }
}

/// Model of a command.
pub enum CommandView {
    Connect { id: Seq<char> },
    Disconnect(Seq<char>),
    JoinGame { player_id: Seq<char>, game_id: Seq<char> },
    MakeMove { player_id: Seq<char>, game_id: Seq<char>, position: Seq<usize> },
}

/// A command for the coordinator. The outbound channel of a connecting player
/// stays with the connection that owns it; the coordinator addresses players
/// by identifier.
#[derive(Clone, Debug, PartialEq, Eq)]
pub enum ServerMessage {
    Connect { id: String },
    Disconnect(String),
    JoinGame { player_id: String, game_id: String },
    MakeMove { player_id: String, game_id: String, position: Vec<usize> },
}

impl View for ServerMessage {
    type V = CommandView;

    open spec fn view(&self) -> CommandView {
        match self {
            ServerMessage::Connect { id } => CommandView::Connect { id: id@ },
            ServerMessage::Disconnect(id) => CommandView::Disconnect(id@),
            ServerMessage::JoinGame { player_id, game_id } => CommandView::JoinGame {
                player_id: player_id@,
                game_id: game_id@,
            },
            ServerMessage::MakeMove { player_id, game_id, position } => CommandView::MakeMove {
                player_id: player_id@,
                game_id: game_id@,
                position: position@,
            },
        }
    }
}

/// Model of a delivery.
pub struct DeliveryView {
    pub to: Seq<char>,
    pub message: MessageView,
}

/// An event together with the player whose outbound queue gets it.
#[derive(Clone, Debug, PartialEq, Eq)]
pub struct Delivery {
    pub to: String,
    pub message: ClientMessage,
}

impl View for Delivery {
    type V = DeliveryView;

    open spec fn view(&self) -> DeliveryView {
        DeliveryView { to: self.to@, message: self.message@ }
    }
}

/// The views of a sequence of deliveries.
pub open spec fn deliveries_of(items: Seq<Delivery>) -> Seq<DeliveryView> {
    items.map_values(|d: Delivery| d@)
}

} // verus!
