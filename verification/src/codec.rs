//! The codec: inbound wire messages to commands, events to wire text.

use vstd::prelude::*;
use vstd::string::*;
use crate::message::{ClientMessage, CommandView, MessageView, ServerMessage};
use crate::room::{Cell, Room, RoomView};

verus! {

/// An inbound wire message after its text was parsed: the fields as they
/// stood on the wire, absent ones as `None`.
#[derive(Clone, Debug, PartialEq, Eq)]
pub struct WsMessage {
    pub message_type: String,
    pub player: Option<String>,
    pub game_id: Option<String>,
    pub position: Option<Vec<usize>>,
}

/// What decoding an inbound message gives.
#[derive(Clone, Debug, PartialEq, Eq)]
pub enum Decoded {
    Command(ServerMessage),
    /// The message has no known type or lacks a field. It is dropped without
    /// a reply.
    Malformed,
}

/// The command that a wire message stands for, if it is well formed.
pub open spec fn routed(msg: WsMessage) -> Option<CommandView> {
    if msg.message_type@ == "join"@ && msg.player is Some && msg.game_id is Some {
        Some(CommandView::JoinGame { player_id: msg.player->0@, game_id: msg.game_id->0@ })
    } else if msg.message_type@ == "move"@ && msg.player is Some && msg.game_id is Some
        && msg.position is Some {
        Some(
            CommandView::MakeMove {
                player_id: msg.player->0@,
                game_id: msg.game_id->0@,
                position: msg.position->0@,
            },
        )
    } else {
        None
    }
}

/// Decodes an inbound message into a command, or names it malformed.
pub fn decode(msg: WsMessage) -> (out: Decoded)
    ensures
        match out {
            Decoded::Command(command) => routed(msg) == Some(command@),
            Decoded::Malformed => routed(msg) is None,
        },
{
    proof {
        reveal_strlit("join");
        reveal_strlit("move");
    }
    let join = "join".to_owned();
    let mv = "move".to_owned();
    let is_join = msg.message_type == join;
    let is_move = msg.message_type == mv;
    if !is_join && !is_move {
        return Decoded::Malformed;
    }
    let player_id = match msg.player {
        Some(player_id) => player_id,
        None => {
            return Decoded::Malformed;
        },
    };
    let game_id = match msg.game_id {
        Some(game_id) => game_id,
        None => {
            return Decoded::Malformed;
        },
    };
    if is_join {
        return Decoded::Command(ServerMessage::JoinGame { player_id, game_id });
    }
    match msg.position {
        Some(position) => Decoded::Command(ServerMessage::MakeMove { player_id, game_id, position }),
        None => Decoded::Malformed,
    }
}

/// The wire text of a turn notice.
pub open spec fn turn_notice_text(is_turn: bool) -> Seq<char> {
    if is_turn {
        "{\"type\":\"turn\",\"is_turn\":true}"@
    } else {
        "{\"type\":\"turn\",\"is_turn\":false}"@
    }
}

/// Encodes a turn notice.
pub fn encode_turn_notice(is_turn: bool) -> (text: String)
    ensures
        text@ == turn_notice_text(is_turn),
{
    if is_turn {
        "{\"type\":\"turn\",\"is_turn\":true}".to_owned()
    } else {
        "{\"type\":\"turn\",\"is_turn\":false}".to_owned()
    }
}

/// The JSON string literal that stands for a text: the text between double
/// quotes, with the characters that JSON cannot hold as they are escaped.
pub uninterp spec fn json_quoted(text: Seq<char>) -> Seq<char>;

/// Calls `serde_json::to_string` on a string slice. The result is the JSON
/// string literal for the text, a function of the text alone. Writing a
/// string into memory has no failure case in that function, so the fallback
/// is never taken.
#[verifier::external_body]
fn json_string(text: &str) -> (quoted: String)
    ensures
        quoted@ == json_quoted(text@),
{
    serde_json::to_string(text).unwrap_or_default()
}

/// The JSON text of a cell: its symbol between double quotes.
pub open spec fn cell_json(cell: Cell) -> Seq<char> {
    match cell {
        Cell::Empty => "\"_\""@,
        Cell::MarkA => "\"X\""@,
        Cell::MarkB => "\"O\""@,
    }
}

/// The JSON text of one row of the board.
pub open spec fn row_json(board: Seq<Cell>, row: int) -> Seq<char> {
    "["@ + cell_json(board[row * 3]) + ","@ + cell_json(board[row * 3 + 1]) + ","@ + cell_json(
        board[row * 3 + 2],
    ) + "]"@
}

/// The JSON text of the board: an array of three rows.
pub open spec fn board_json(board: Seq<Cell>) -> Seq<char> {
    "["@ + row_json(board, 0) + ","@ + row_json(board, 1) + ","@ + row_json(board, 2) + "]"@
}

/// The JSON text of the members: an array of string literals in seat order.
pub open spec fn players_json(room: RoomView) -> Seq<char> {
    match (room.first, room.second) {
        (Some(a), Some(b)) => "["@ + json_quoted(a) + ","@ + json_quoted(b) + "]"@,
        (Some(a), None) => "["@ + json_quoted(a) + "]"@,
        (None, Some(b)) => "["@ + json_quoted(b) + "]"@,
        (None, None) => "[]"@,
    }
}

pub open spec fn bool_json(value: bool) -> Seq<char> {
    if value {
        "true"@
    } else {
        "false"@
    }
}

/// The wire text of a room state: an object with the fields `game_id`,
/// `players`, `board` and `x_turn`, in that order and without white space.
pub open spec fn room_json(room: RoomView) -> Seq<char> {
    "{\"game_id\":"@ + json_quoted(room.game_id) + ",\"players\":"@ + players_json(room)
        + ",\"board\":"@ + board_json(room.board) + ",\"x_turn\":"@ + bool_json(room.x_turn) + "}"@
}

/// The wire text of an event: the identifier for an identity assignment, the
/// JSON object for a room state, the error text for an error, the notice for
/// a turn notice.
pub open spec fn wire_text(message: MessageView) -> Seq<char> {
    match message {
        MessageView::Id(id) => id,
        MessageView::GameState(room) => room_json(room),
        MessageView::Error(text) => text,
        MessageView::YourTurn(is_turn) => turn_notice_text(is_turn),
    }
}

fn encode_cell(cell: Cell) -> (text: &'static str)
    ensures
        text@ == cell_json(cell),
{
    match cell {
        Cell::Empty => "\"_\"",
        Cell::MarkA => "\"X\"",
        Cell::MarkB => "\"O\"",
    }
}

fn encode_row(room: &Room, row: usize) -> (text: String)
    requires
        row < 3,
    ensures
        text@ == row_json(room@.board, row as int),
{
    let mut text = "[".to_owned();
    text.append(encode_cell(room.cell(row, 0)));
    text.append(",");
    text.append(encode_cell(room.cell(row, 1)));
    text.append(",");
    text.append(encode_cell(room.cell(row, 2)));
    text.append("]");
    text
}

fn encode_board(room: &Room) -> (text: String)
    ensures
        text@ == board_json(room@.board),
{
    let mut text = "[".to_owned();
    text.append(encode_row(room, 0).as_str());
    text.append(",");
    text.append(encode_row(room, 1).as_str());
    text.append(",");
    text.append(encode_row(room, 2).as_str());
    text.append("]");
    text
}

fn encode_players(room: &Room) -> (text: String)
    ensures
        text@ == players_json(room@),
{
    let (first, second) = room.seats();
    match (first, second) {
        (Some(a), Some(b)) => {
            let mut text = "[".to_owned();
            text.append(json_string(a.as_str()).as_str());
            text.append(",");
            text.append(json_string(b.as_str()).as_str());
            text.append("]");
            text
        },
        (Some(a), None) => {
            let mut text = "[".to_owned();
            text.append(json_string(a.as_str()).as_str());
            text.append("]");
            text
        },
        (None, Some(b)) => {
            let mut text = "[".to_owned();
            text.append(json_string(b.as_str()).as_str());
            text.append("]");
            text
        },
        (None, None) => "[]".to_owned(),
    }
}

/// Encodes a room state.
pub fn encode_room(room: &Room) -> (text: String)
    ensures
        text@ == room_json(room@),
{
    let mut text = "{\"game_id\":".to_owned();
    text.append(json_string(room.game_id().as_str()).as_str());
    text.append(",\"players\":");
    text.append(encode_players(room).as_str());
    text.append(",\"board\":");
    text.append(encode_board(room).as_str());
    text.append(",\"x_turn\":");
    text.append(if room.x_turn() { "true" } else { "false" });
    text.append("}");
    text
}

/// Encodes an event for the wire.
pub fn encode(message: &ClientMessage) -> (text: String)
    ensures
        text@ == wire_text(message@),
{
    match message {
        ClientMessage::Id(id) => id.clone(),
        ClientMessage::GameState(room) => encode_room(room),
        ClientMessage::Error(text) => text.clone(),
        ClientMessage::YourTurn(is_turn) => encode_turn_notice(*is_turn),
    }
}

} // verus!
