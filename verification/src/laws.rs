//! Laws that relate the operations of rooms and of the coordinator.

use vstd::prelude::*;
use crate::message::CommandView;
use crate::room::{cell_index, mark_of, Cell, GameError, Role, RoomView};
use crate::server::{index_of, lemma_find_from, room_ids, ServerView};

verus! {

/// A move as it reaches a room: who asks, and for which position.
pub struct MoveView {
    pub player: Seq<char>,
    pub position: Seq<usize>,
}

/// Whether the room accepts every move of `moves`, one after another.
pub open spec fn all_accepted(room: RoomView, moves: Seq<MoveView>) -> bool
    decreases moves.len(),
{
    moves.len() == 0 || (room.move_rejection(moves[0].player, moves[0].position) is None
        && all_accepted(room.moved(moves[0].player, moves[0].position), moves.drop_first()))
}

/// The room after the move commands of `moves`, one after another.
pub open spec fn play(room: RoomView, moves: Seq<MoveView>) -> RoomView
    decreases moves.len(),
{
    if moves.len() == 0 {
        room
    } else {
        play(room.after_move(moves[0].player, moves[0].position), moves.drop_first())
    }
}

/// The cell that the `i`-th move of `moves` aims at.
pub open spec fn target(moves: Seq<MoveView>, i: int) -> int {
    cell_index(moves[i].position)->0
}

/// Whether some move of `moves` aims at `cell`.
pub open spec fn touched(moves: Seq<MoveView>, cell: int) -> bool {
    exists|i: int| 0 <= i < moves.len() && #[trigger] target(moves, i) == cell
}

/// After a sequence of accepted moves the board holds exactly those moves:
/// every move aimed at a cell of its own that was empty at the start, that
/// cell holds the mover's mark, the movers alternate beginning with the one
/// whose turn it was, every other cell is as it was, the seats are as they
/// were, and the turn flag has flipped once per move.
pub proof fn lemma_accepted_moves(room: RoomView, moves: Seq<MoveView>)
    requires
        room.wf(),
        all_accepted(room, moves),
    ensures
        play(room, moves).wf(),
        play(room, moves).game_id == room.game_id,
        play(room, moves).first == room.first,
        play(room, moves).second == room.second,
        play(room, moves).x_turn == (room.x_turn == (moves.len() % 2 == 0)),
        forall|i: int|
            0 <= i < moves.len() ==> {
                &&& cell_index(moves[i].position) is Some
                &&& 0 <= #[trigger] target(moves, i) < 9
                &&& room.board[target(moves, i)] == Cell::Empty
                &&& room.role_of(moves[i].player) is Some
                &&& (room.role_of(moves[i].player)->0 == Role::First) == (room.x_turn == (i % 2
                    == 0))
                &&& play(room, moves).board[target(moves, i)] == mark_of(
                    room.role_of(moves[i].player)->0,
                )
            },
        forall|i: int, j: int|
            0 <= i < j < moves.len() ==> #[trigger] target(moves, i) != #[trigger] target(moves, j),
        forall|cell: int|
            0 <= cell < 9 && !touched(moves, cell) ==> #[trigger] play(room, moves).board[cell]
                == room.board[cell],
    decreases moves.len(),
{
    if moves.len() > 0 {
        let head = moves[0];
        let rest = moves.drop_first();
        let next = room.moved(head.player, head.position);
        let end = play(room, moves);
        assert(room.after_move(head.player, head.position) == next);
        assert(end == play(next, rest));
        lemma_accepted_moves(next, rest);
        let c0 = target(moves, 0);
        assert(next.board[c0] != Cell::Empty);
        assert forall|i: int| 0 <= i < rest.len() implies #[trigger] target(rest, i) == target(
            moves,
            i + 1,
        ) && target(rest, i) != c0 by {
            assert(rest[i] == moves[i + 1]);
            assert(next.board[target(rest, i)] == Cell::Empty);
        }
        assert(!touched(rest, c0));
        assert forall|i: int| 0 <= i < moves.len() implies {
            &&& cell_index(moves[i].position) is Some
            &&& 0 <= #[trigger] target(moves, i) < 9
            &&& room.board[target(moves, i)] == Cell::Empty
            &&& room.role_of(moves[i].player) is Some
            &&& (room.role_of(moves[i].player)->0 == Role::First) == (room.x_turn == (i % 2 == 0))
            &&& end.board[target(moves, i)] == mark_of(room.role_of(moves[i].player)->0)
        } by {
            if i > 0 {
                assert(rest[i - 1] == moves[i]);
                assert(target(rest, i - 1) == target(moves, i));
                assert(next.role_of(moves[i].player) == room.role_of(moves[i].player));
            }
        }
        assert forall|i: int, j: int| 0 <= i < j < moves.len() implies #[trigger] target(moves, i)
            != #[trigger] target(moves, j) by {
            assert(target(rest, j - 1) == target(moves, j));
            if i > 0 {
                assert(target(rest, i - 1) == target(moves, i));
            }
        }
        assert forall|cell: int| 0 <= cell < 9 && !touched(moves, cell) implies #[trigger] end.board[cell]
            == room.board[cell] by {
            assert(target(moves, 0) != cell);
            if touched(rest, cell) {
                let i = choose|i: int| 0 <= i < rest.len() && #[trigger] target(rest, i) == cell;
                assert(target(moves, i + 1) == cell);
            }
        }
    }
}

/// A move at an occupied cell is turned down whoever asks, and the room
/// stays as it is; the member whose turn it is gets `InvalidMove`.
pub proof fn lemma_occupied_cell_rejected(room: RoomView, player: Seq<char>, position: Seq<usize>)
    requires
        cell_index(position) is Some,
        room.board[cell_index(position)->0] != Cell::Empty,
    ensures
        room.move_rejection(player, position) is Some,
        room.after_move(player, position) == room,
        room.role_of(player) is Some && room.is_turn_of(room.role_of(player)->0)
            ==> room.move_rejection(player, position) == Some(GameError::InvalidMove),
{
}

/// A cell that holds a mark keeps it through every move command, and an
/// accepted move flips the turn flag.
pub proof fn lemma_marks_stay(room: RoomView, player: Seq<char>, position: Seq<usize>, cell: int)
    requires
        room.wf(),
        0 <= cell < 9,
        room.board[cell] != Cell::Empty,
    ensures
        room.after_move(player, position).board[cell] == room.board[cell],
        room.move_rejection(player, position) is None ==> room.after_move(player, position).x_turn
            != room.x_turn,
{
}

/// Nobody moves in a room without holding a seat in it.
pub proof fn lemma_outsider_cannot_move(room: RoomView, player: Seq<char>, position: Seq<usize>)
    requires
        room.role_of(player) is None,
    ensures
        room.move_rejection(player, position) == Some(GameError::NotInGame),
        room.after_move(player, position) == room,
{
}

/// The coordinator turns down a move at an occupied cell of an existing
/// room, whoever asks, and changes nothing.
pub proof fn lemma_server_rejects_occupied_cell(
    server: ServerView,
    player: Seq<char>,
    game: Seq<char>,
    position: Seq<usize>,
)
    requires
        server.has_room(game),
        cell_index(position) is Some,
        server.rooms[server.room_index(game)].board[cell_index(position)->0] != Cell::Empty,
    ensures
        server.make_move(player, game, position).0 == server,
        server.make_move(player, game, position).1.rejection is Some,
{
}

/// A room never has more than two members, and in a well-formed room they
/// are distinct.
pub proof fn lemma_at_most_two_members(room: RoomView)
    ensures
        room.members().len() <= 2,
        room.wf() ==> room.members().no_duplicates(),
        forall|player: Seq<char>| room.role_of(player) is Some <==> room.members().contains(player),
{
    assert forall|player: Seq<char>| room.role_of(player) is Some implies room.members().contains(
        player,
    ) by {
        if room.first == Some(player) {
            assert(room.members()[0] == player);
        } else {
            assert(room.members()[room.members().len() - 1] == player);
        }
    }
}

/// Joining a room that has two members is turned down with `RoomFull`,
/// whoever asks, and changes nothing.
pub proof fn lemma_full_room_rejects_join(server: ServerView, player: Seq<char>, game: Seq<char>)
    requires
        server.has_room(game),
        server.rooms[server.room_index(game)].is_full(),
    ensures
        server.join(player, game).0 == server,
        server.join(player, game).1.rejection == Some(GameError::RoomFull),
{
}

/// A join that is accepted leaves the room with at most two members, the
/// player among them.
pub proof fn lemma_join_seats_player(room: RoomView, player: Seq<char>)
    requires
        room.wf(),
        !room.is_full(),
    ensures
        room.joined(player).wf(),
        room.joined(player).role_of(player) is Some,
        room.joined(player).members().len() <= 2,
        room.joined(player).board == room.board,
        room.joined(player).x_turn == room.x_turn,
{
}

/// Every command leaves a well-formed coordinator well formed.
pub proof fn lemma_step_keeps_wf(server: ServerView, command: CommandView)
    requires
        server.wf(),
    ensures
        server.step(command).0.wf(),
{
    let next = server.step(command).0;
    match command {
        CommandView::Connect { id } => {
            lemma_find_from(server.sessions, id, 0);
            assert forall|i: int, j: int|
                0 <= i < next.sessions.len() && 0 <= j < next.sessions.len() && i != j implies next.sessions[i]
                != next.sessions[j] by {
                if i < server.sessions.len() {
                    assert(next.sessions[i] == server.sessions[i]);
                }
                if j < server.sessions.len() {
                    assert(next.sessions[j] == server.sessions[j]);
                }
            }
            assert(next.sessions.no_duplicates());
            assert forall|k: int| 0 <= k < next.rooms.len() implies (#[trigger] next.rooms[k]).wf() by {
                assert(server.rooms[k].wf());
            }
        },
        CommandView::Disconnect(id) => {
            lemma_find_from(server.sessions, id, 0);
            let at = index_of(server.sessions, id);
            assert forall|i: int, j: int|
                0 <= i < next.sessions.len() && 0 <= j < next.sessions.len() && i != j implies next.sessions[i]
                != next.sessions[j] by {
                if at < server.sessions.len() {
                    let a = if i < at { i } else { i + 1 };
                    let b = if j < at { j } else { j + 1 };
                    assert(next.sessions[i] == server.sessions[a]);
                    assert(next.sessions[j] == server.sessions[b]);
                }
            }
            assert(next.sessions.no_duplicates());
            assert(room_ids(next.rooms) =~= room_ids(server.rooms));
            assert forall|i: int| 0 <= i < next.rooms.len() implies (#[trigger] next.rooms[i]).wf() by {
                assert(server.rooms[i].wf());
            }
        },
        CommandView::JoinGame { player_id, game_id } => {
            lemma_find_from(room_ids(server.rooms), game_id, 0);
            let i = server.room_index(game_id);
            let rooms = server.with_room(game_id);
            assert(room_ids(rooms).no_duplicates()) by {
                if !server.has_room(game_id) {
                    assert(room_ids(rooms) =~= room_ids(server.rooms).push(game_id));
                }
            }
            assert forall|k: int| 0 <= k < rooms.len() implies (#[trigger] rooms[k]).wf() by {
                if k < server.rooms.len() {
                    assert(server.rooms[k].wf());
                }
            }
            if !rooms[i].is_full() {
                assert(room_ids(next.rooms) =~= room_ids(rooms));
                assert forall|k: int| 0 <= k < next.rooms.len() implies (#[trigger] next.rooms[k]).wf() by {
                    assert(rooms[k].wf());
                }
            }
        },
        CommandView::MakeMove { player_id, game_id, position } => {
            lemma_find_from(room_ids(server.rooms), game_id, 0);
            if server.move_rejection(player_id, game_id, position) is None {
                assert(room_ids(next.rooms) =~= room_ids(server.rooms));
                assert forall|k: int| 0 <= k < next.rooms.len() implies (#[trigger] next.rooms[k]).wf() by {
                    assert(server.rooms[k].wf());
                }
            }
        },
    }
}

/// A command that is turned down changes nothing, and its error reaches the
/// requester or nobody.
pub proof fn lemma_rejection_changes_nothing(server: ServerView, command: CommandView)
    requires
        server.step(command).1.rejection is Some,
    ensures
        server.step(command).0 == server,
        command is JoinGame || command is MakeMove,
        forall|k: int|
            0 <= k < server.step(command).1.deliveries.len() ==> {
                &&& command is JoinGame ==> (#[trigger] server.step(command).1.deliveries[k]).to
                    == command->JoinGame_player_id
                &&& command is MakeMove ==> server.step(command).1.deliveries[k].to
                    == command->MakeMove_player_id
                &&& server.step(command).1.deliveries[k].message is Error
            },
{
    match command {
        CommandView::JoinGame { player_id, game_id } => {
            lemma_find_from(room_ids(server.rooms), game_id, 0);
            if !server.has_room(game_id) {
                let rooms = server.with_room(game_id);
                assert(rooms[server.room_index(game_id)] == RoomView::fresh(game_id));
            }
        },
        _ => {},
    }
}

/// A move command touches no room but its own, and that one as the room's
/// rules say.
pub proof fn lemma_move_touches_one_room(
    server: ServerView,
    player: Seq<char>,
    game: Seq<char>,
    position: Seq<usize>,
)
    ensures
        server.make_move(player, game, position).0.sessions == server.sessions,
        server.make_move(player, game, position).0.rooms.len() == server.rooms.len(),
        forall|k: int|
            0 <= k < server.rooms.len() && k != server.room_index(game) ==> (
            #[trigger] server.make_move(player, game, position).0.rooms[k]) == server.rooms[k],
        server.has_room(game) ==> server.make_move(player, game, position).0.rooms[server.room_index(
            game,
        )] == server.rooms[server.room_index(game)].after_move(player, position),
{
    lemma_find_from(room_ids(server.rooms), game, 0);
}

/// After a disconnect the player is in no room and not in the registry, and
/// each of its moves is turned down with `NotInGame`, changing nothing and
/// reaching nobody.
pub proof fn lemma_disconnect_removes_player(
    server: ServerView,
    id: Seq<char>,
    game: Seq<char>,
    position: Seq<usize>,
)
    requires
        server.wf(),
    ensures
        !server.disconnect(id).0.registered(id),
        server.disconnect(id).0.rooms.len() == server.rooms.len(),
        forall|i: int|
            0 <= i < server.rooms.len() ==> (#[trigger] server.disconnect(id).0.rooms[i]).role_of(
                id,
            ) is None,
        server.disconnect(id).0.make_move(id, game, position).0 == server.disconnect(id).0,
        server.disconnect(id).0.make_move(id, game, position).1.rejection == Some(
            GameError::NotInGame,
        ),
        server.disconnect(id).0.make_move(id, game, position).1.deliveries.len() == 0,
{
    let next = server.disconnect(id).0;
    let at = index_of(server.sessions, id);
    lemma_find_from(server.sessions, id, 0);
    lemma_find_from(next.sessions, id, 0);
    lemma_find_from(room_ids(next.rooms), game, 0);
    if next.has_room(game) {
        assert(next.rooms[next.room_index(game)] == server.rooms[next.room_index(game)].without(id));
    }
    let found = index_of(next.sessions, id);
    if found < next.sessions.len() {
        if at < server.sessions.len() {
            if found < at {
                assert(server.sessions[found] == id);
            } else {
                assert(server.sessions[found + 1] == id);
            }
        } else {
            assert(server.sessions[found] == id);
        }
    }
}

} // verus!
