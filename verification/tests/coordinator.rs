use game_coordinator::message::{ClientMessage, Delivery, ServerMessage};
use game_coordinator::room::{Cell, GameError, Room};
use game_coordinator::server::{GameServer, Reply};

fn s(text: &str) -> String {
    text.to_string()
}

fn connect(server: &mut GameServer, id: &str) -> Reply {
    server.handle(ServerMessage::Connect { id: s(id) })
}

fn join(server: &mut GameServer, player: &str, game: &str) -> Reply {
    server.handle(ServerMessage::JoinGame { player_id: s(player), game_id: s(game) })
}

fn play(server: &mut GameServer, player: &str, game: &str, position: Vec<usize>) -> Reply {
    server.handle(ServerMessage::MakeMove { player_id: s(player), game_id: s(game), position })
}

fn error_for(player: &str, error: GameError) -> Vec<Delivery> {
    vec![Delivery { to: s(player), message: ClientMessage::Error(error.message()) }]
}

fn two_player_room() -> GameServer {
    let mut server = GameServer::new();
    connect(&mut server, "a");
    connect(&mut server, "b");
    join(&mut server, "a", "g1");
    join(&mut server, "b", "g1");
    server
}

fn state_in(delivery: &Delivery) -> Room {
    match &delivery.message {
        ClientMessage::GameState(room) => room.clone(),
        other => panic!("expected a room state, got {:?}", other),
    }
}

#[test]
fn connect_confirms_identifier_to_that_player() {
    let mut server = GameServer::new();
    let reply = connect(&mut server, "a");
    assert_eq!(reply.rejection, None);
    assert_eq!(reply.deliveries, vec![Delivery { to: s("a"), message: ClientMessage::Id(s("a")) }]);
    assert!(server.is_registered(&s("a")));
    assert!(!server.is_registered(&s("b")));
}

#[test]
fn connecting_twice_keeps_one_registration() {
    let mut server = GameServer::new();
    connect(&mut server, "a");
    let reply = connect(&mut server, "a");
    assert_eq!(reply.deliveries.len(), 1);
    server.handle(ServerMessage::Disconnect(s("a")));
    assert!(!server.is_registered(&s("a")));
}

#[test]
fn scenario_two_players_join_move_and_collide() {
    let mut server = GameServer::new();
    connect(&mut server, "a");
    connect(&mut server, "b");

    let reply = join(&mut server, "a", "g1");
    assert_eq!(reply.rejection, None);
    assert_eq!(reply.deliveries.len(), 2);
    assert_eq!(reply.deliveries[0].to, "a");
    let room = state_in(&reply.deliveries[0]);
    assert_eq!(room.game_id(), "g1");
    assert_eq!(room.players(), vec![s("a")]);
    assert!(!room.game_ready());
    assert!(room.x_turn());
    for row in 0..3 {
        for col in 0..3 {
            assert_eq!(room.cell(row, col), Cell::Empty);
        }
    }
    assert_eq!(reply.deliveries[1], Delivery { to: s("a"), message: ClientMessage::YourTurn(true) });

    let reply = join(&mut server, "b", "g1");
    assert_eq!(reply.rejection, None);
    assert_eq!(reply.deliveries.len(), 4);
    let recipients: Vec<&str> = reply.deliveries.iter().map(|d| d.to.as_str()).collect();
    assert_eq!(recipients, vec!["a", "a", "b", "b"]);
    let room = state_in(&reply.deliveries[2]);
    assert_eq!(room.players(), vec![s("a"), s("b")]);
    assert!(room.game_ready());
    assert_eq!(reply.deliveries[1].message, ClientMessage::YourTurn(true));
    assert_eq!(reply.deliveries[3].message, ClientMessage::YourTurn(false));

    let reply = play(&mut server, "a", "g1", vec![0, 0]);
    assert_eq!(reply.rejection, None);
    assert_eq!(reply.deliveries.len(), 4);
    let room = state_in(&reply.deliveries[0]);
    assert_eq!(room.cell(0, 0), Cell::MarkA);
    assert!(!room.x_turn());
    assert_eq!(state_in(&reply.deliveries[2]), room);
    assert_eq!(reply.deliveries[1], Delivery { to: s("a"), message: ClientMessage::YourTurn(false) });
    assert_eq!(reply.deliveries[3], Delivery { to: s("b"), message: ClientMessage::YourTurn(true) });

    let before = server.room(&s("g1")).unwrap();
    let reply = play(&mut server, "b", "g1", vec![0, 0]);
    assert_eq!(reply.rejection, Some(GameError::InvalidMove));
    assert_eq!(reply.deliveries, error_for("b", GameError::InvalidMove));
    assert_eq!(reply.deliveries[0].message, ClientMessage::Error(s("Invalid move")));
    assert_eq!(server.room(&s("g1")).unwrap(), before);
}

#[test]
fn accepted_moves_fill_the_board_in_order_and_flip_the_turn() {
    let mut server = two_player_room();
    let moves: Vec<(&str, Vec<usize>)> =
        vec![("a", vec![1, 1]), ("b", vec![0, 2]), ("a", vec![2, 0]), ("b", vec![2, 2]), ("a", vec![0, 1])];
    let mut expected_turn = true;
    for (player, position) in moves {
        let reply = play(&mut server, player, "g1", position);
        assert_eq!(reply.rejection, None);
        expected_turn = !expected_turn;
        assert_eq!(server.room(&s("g1")).unwrap().x_turn(), expected_turn);
    }
    let room = server.room(&s("g1")).unwrap();
    assert!(!room.x_turn());
    let expected = vec![
        vec![s("_"), s("X"), s("O")],
        vec![s("_"), s("X"), s("_")],
        vec![s("X"), s("_"), s("O")],
    ];
    assert_eq!(room.board_rows(), expected);
}

#[test]
fn occupied_cell_is_rejected_for_either_player() {
    let mut server = two_player_room();
    play(&mut server, "a", "g1", vec![1, 1]);
    play(&mut server, "b", "g1", vec![0, 0]);
    let before = server.room(&s("g1")).unwrap();
    let reply = play(&mut server, "a", "g1", vec![0, 0]);
    assert_eq!(reply.rejection, Some(GameError::InvalidMove));
    let reply = play(&mut server, "b", "g1", vec![1, 1]);
    assert_eq!(reply.rejection, Some(GameError::NotYourTurn));
    let reply = play(&mut server, "stranger", "g1", vec![1, 1]);
    assert_eq!(reply.rejection, Some(GameError::NotInGame));
    assert_eq!(server.room(&s("g1")).unwrap(), before);
}

#[test]
fn third_player_is_turned_down_with_room_full() {
    let mut server = two_player_room();
    connect(&mut server, "c");
    let before = server.room(&s("g1")).unwrap();
    let reply = join(&mut server, "c", "g1");
    assert_eq!(reply.rejection, Some(GameError::RoomFull));
    assert_eq!(reply.deliveries, error_for("c", GameError::RoomFull));
    assert_eq!(reply.deliveries[0].message, ClientMessage::Error(s("Game is full")));
    let room = server.room(&s("g1")).unwrap();
    assert_eq!(room, before);
    assert_eq!(room.players().len(), 2);
}

#[test]
fn member_of_a_full_room_is_turned_down_too() {
    let mut server = two_player_room();
    let reply = join(&mut server, "a", "g1");
    assert_eq!(reply.rejection, Some(GameError::RoomFull));
}

#[test]
fn joining_again_keeps_the_seat() {
    let mut server = GameServer::new();
    connect(&mut server, "a");
    join(&mut server, "a", "g1");
    let reply = join(&mut server, "a", "g1");
    assert_eq!(reply.rejection, None);
    assert_eq!(server.room(&s("g1")).unwrap().players(), vec![s("a")]);
}

#[test]
fn disconnect_clears_registry_and_rooms() {
    let mut server = two_player_room();
    join(&mut server, "a", "g2");
    let reply = server.handle(ServerMessage::Disconnect(s("a")));
    assert_eq!(reply.rejection, None);
    assert!(reply.deliveries.is_empty());
    assert!(!server.is_registered(&s("a")));
    assert!(server.is_registered(&s("b")));
    assert_eq!(server.room(&s("g1")).unwrap().players(), vec![s("b")]);
    assert!(server.room(&s("g2")).unwrap().players().is_empty());

    let reply = play(&mut server, "a", "g1", vec![0, 0]);
    assert_eq!(reply.rejection, Some(GameError::NotInGame));
    assert!(reply.deliveries.is_empty());
    let reply = play(&mut server, "a", "g2", vec![0, 0]);
    assert_eq!(reply.rejection, Some(GameError::NotInGame));
}

#[test]
fn freed_first_seat_goes_to_the_next_player() {
    let mut server = two_player_room();
    connect(&mut server, "c");
    server.handle(ServerMessage::Disconnect(s("a")));
    let reply = join(&mut server, "c", "g1");
    assert_eq!(reply.rejection, None);
    assert_eq!(server.room(&s("g1")).unwrap().players(), vec![s("c"), s("b")]);
    let reply = play(&mut server, "c", "g1", vec![2, 2]);
    assert_eq!(reply.rejection, None);
    assert_eq!(server.room(&s("g1")).unwrap().cell(2, 2), Cell::MarkA);
}

#[test]
fn move_in_unknown_room_is_not_in_game() {
    let mut server = GameServer::new();
    connect(&mut server, "a");
    let reply = play(&mut server, "a", "nowhere", vec![0, 0]);
    assert_eq!(reply.rejection, Some(GameError::NotInGame));
    assert_eq!(reply.deliveries, error_for("a", GameError::NotInGame));
    assert_eq!(reply.deliveries[0].message, ClientMessage::Error(s("Not in game")));
    assert!(server.room(&s("nowhere")).is_none());
}

#[test]
fn move_out_of_turn_is_not_your_turn() {
    let mut server = two_player_room();
    let reply = play(&mut server, "b", "g1", vec![0, 0]);
    assert_eq!(reply.rejection, Some(GameError::NotYourTurn));
    assert_eq!(reply.deliveries, error_for("b", GameError::NotYourTurn));
    assert_eq!(reply.deliveries[0].message, ClientMessage::Error(s("Not your turn")));
}

#[test]
fn position_outside_the_board_is_invalid() {
    let mut server = two_player_room();
    for position in [vec![3, 0], vec![0, 3], vec![7, 9], vec![], vec![1], vec![0, 0, 0]] {
        let reply = play(&mut server, "a", "g1", position);
        assert_eq!(reply.rejection, Some(GameError::InvalidMove));
        assert_eq!(reply.deliveries, error_for("a", GameError::InvalidMove));
    }
    assert!(server.room(&s("g1")).unwrap().x_turn());
}

#[test]
fn events_for_unregistered_players_are_dropped() {
    let mut server = GameServer::new();
    connect(&mut server, "a");
    join(&mut server, "a", "g1");
    let reply = join(&mut server, "ghost", "g1");
    assert_eq!(reply.rejection, None);
    let recipients: Vec<&str> = reply.deliveries.iter().map(|d| d.to.as_str()).collect();
    assert_eq!(recipients, vec!["a", "a"]);
}

#[test]
fn rooms_are_independent() {
    let mut server = two_player_room();
    join(&mut server, "a", "g2");
    play(&mut server, "a", "g1", vec![0, 0]);
    let other = server.room(&s("g2")).unwrap();
    assert_eq!(other.cell(0, 0), Cell::Empty);
    assert!(other.x_turn());
    assert_eq!(other, {
        let mut room = Room::new(s("g2"));
        room.join(s("a"));
        room
    });
}

#[test]
fn default_server_is_empty() {
    let server = GameServer::default();
    assert!(!server.is_registered(&s("a")));
    assert!(server.room(&s("g1")).is_none());
}
