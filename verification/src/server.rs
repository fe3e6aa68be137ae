//! The coordinator: the one owner of the session registry and of every room.
//! It takes one command at a time and answers with the events to deliver.

use vstd::prelude::*;
use crate::message::{
    deliveries_of, ClientMessage, CommandView, Delivery, DeliveryView, MessageView, ServerMessage,
};
use crate::room::{error_text, ids_of, seat_view, GameError, Role, Room, RoomView};

verus! {

/// The first index at or after `start` at which `ids` holds `id`, or the
/// length of `ids` where there is none.
pub open spec fn find_from(ids: Seq<Seq<char>>, id: Seq<char>, start: int) -> int
    decreases ids.len() - start,
{
    if start < 0 || start >= ids.len() {
        ids.len() as int
    } else if ids[start] == id {
        start
    } else {
        find_from(ids, id, start + 1)
    }
}

/// The first index at which `ids` holds `id`, or the length of `ids`.
pub open spec fn index_of(ids: Seq<Seq<char>>, id: Seq<char>) -> int {
    find_from(ids, id, 0)
}

/// `find_from` gives the first occurrence at or after `start`.
pub proof fn lemma_find_from(ids: Seq<Seq<char>>, id: Seq<char>, start: int)
    requires
        0 <= start <= ids.len(),
    ensures
        start <= find_from(ids, id, start) <= ids.len(),
        find_from(ids, id, start) < ids.len() ==> ids[find_from(ids, id, start)] == id,
        forall|j: int| start <= j < find_from(ids, id, start) ==> ids[j] != id,
    decreases ids.len() - start,
{
    if start < ids.len() && ids[start] != id {
        lemma_find_from(ids, id, start + 1);
    }
}

/// The identifiers of a sequence of rooms.
pub open spec fn room_ids(rooms: Seq<RoomView>) -> Seq<Seq<char>> {
    rooms.map_values(|r: RoomView| r.game_id)
}

/// The views of a sequence of rooms.
pub open spec fn rooms_of(rooms: Seq<Room>) -> Seq<RoomView> {
    rooms.map_values(|r: Room| r@)
}

/// Model of what the coordinator answers to one command.
pub struct ReplyView {
    pub rejection: Option<GameError>,
    pub deliveries: Seq<DeliveryView>,
}

/// Model of the coordinator: the registered players in the order they
/// connected, and the rooms in the order they were created.
pub struct ServerView {
    pub sessions: Seq<Seq<char>>,
    pub rooms: Seq<RoomView>,
}

impl ServerView {
    /// No player is registered twice, no two rooms share an identifier, and
    /// every room is well formed.
    pub open spec fn wf(self) -> bool {
        &&& self.sessions.no_duplicates()
        &&& room_ids(self.rooms).no_duplicates()
        &&& forall|i: int| 0 <= i < self.rooms.len() ==> (#[trigger] self.rooms[i]).wf()
    }

    pub open spec fn empty() -> ServerView {
        ServerView { sessions: Seq::empty(), rooms: Seq::empty() }
    }

    pub open spec fn registered(self, player: Seq<char>) -> bool {
        index_of(self.sessions, player) < self.sessions.len()
    }

    pub open spec fn room_index(self, game: Seq<char>) -> int {
        index_of(room_ids(self.rooms), game)
    }

    pub open spec fn has_room(self, game: Seq<char>) -> bool {
        self.room_index(game) < self.rooms.len()
    }

    /// A message for `player`, delivered only where `player` is registered.
    pub open spec fn to_player(self, player: Seq<char>, message: MessageView) -> Seq<DeliveryView> {
        if self.registered(player) {
            seq![DeliveryView { to: player, message }]
        } else {
            Seq::empty()
        }
    }

    /// What the holder of one seat is told of a room: its state, then whether
    /// the holder moves next.
    pub open spec fn seat_notices(self, room: RoomView, seat: Option<Seq<char>>, role: Role) -> Seq<
        DeliveryView,
    > {
        if seat is Some {
            self.to_player(seat->0, MessageView::GameState(room)) + self.to_player(
                seat->0,
                MessageView::YourTurn(room.is_turn_of(role)),
            )
        } else {
            Seq::empty()
        }
    }

    /// The broadcast of a room to its members, in seat order.
    pub open spec fn notices(self, room: RoomView) -> Seq<DeliveryView> {
        self.seat_notices(room, room.first, Role::First) + self.seat_notices(
            room,
            room.second,
            Role::Second,
        )
    }

    /// The answer to a command that was turned down: the error goes to the
    /// requester alone.
    pub open spec fn rejected(self, player: Seq<char>, error: GameError) -> ReplyView {
        ReplyView {
            rejection: Some(error),
            deliveries: self.to_player(player, MessageView::Error(error_text(error))),
        }
    }

    /// Registers `id` and confirms it to that player.
    pub open spec fn connect(self, id: Seq<char>) -> (ServerView, ReplyView) {
        let sessions = if self.registered(id) {
            self.sessions
        } else {
            self.sessions.push(id)
        };
        (
            ServerView { sessions, ..self },
            ReplyView {
                rejection: None,
                deliveries: seq![DeliveryView { to: id, message: MessageView::Id(id) }],
            },
        )
    }

    /// Takes `id` out of the registry and out of every room. Nobody is told.
    pub open spec fn disconnect(self, id: Seq<char>) -> (ServerView, ReplyView) {
        let i = index_of(self.sessions, id);
        let sessions = if i < self.sessions.len() {
            self.sessions.remove(i)
        } else {
            self.sessions
        };
        (
            ServerView { sessions, rooms: self.rooms.map_values(|r: RoomView| r.without(id)) },
            ReplyView { rejection: None, deliveries: Seq::empty() },
        )
    }

    /// The rooms once `game` exists: an unknown identifier gets a fresh room
    /// at the end.
    pub open spec fn with_room(self, game: Seq<char>) -> Seq<RoomView> {
        if self.has_room(game) {
            self.rooms
        } else {
            self.rooms.push(RoomView::fresh(game))
        }
    }

    /// Creates the room if need be, then seats the player and broadcasts the
    /// room, or turns the player down where the room is full.
    pub open spec fn join(self, player: Seq<char>, game: Seq<char>) -> (ServerView, ReplyView) {
        let i = self.room_index(game);
        let rooms = self.with_room(game);
        if rooms[i].is_full() {
            (ServerView { rooms, ..self }, self.rejected(player, GameError::RoomFull))
        } else {
            let room = rooms[i].joined(player);
            (
                ServerView { rooms: rooms.update(i, room), ..self },
                ReplyView { rejection: None, deliveries: self.notices(room) },
            )
        }
    }

    /// Why a move command is turned down, or `None` where it is accepted.
    pub open spec fn move_rejection(self, player: Seq<char>, game: Seq<char>, position: Seq<usize>) -> Option<
        GameError,
    > {
        if !self.has_room(game) {
            Some(GameError::NotInGame)
        } else {
            self.rooms[self.room_index(game)].move_rejection(player, position)
        }
    }

    /// Applies an accepted move and broadcasts the room; a rejected one
    /// changes nothing and is reported to the requester alone.
    pub open spec fn make_move(self, player: Seq<char>, game: Seq<char>, position: Seq<usize>) -> (
        ServerView,
        ReplyView,
    ) {
        let rejection = self.move_rejection(player, game, position);
        if rejection is Some {
            (self, self.rejected(player, rejection->0))
        } else {
            let i = self.room_index(game);
            let room = self.rooms[i].moved(player, position);
            (
                ServerView { rooms: self.rooms.update(i, room), ..self },
                ReplyView { rejection: None, deliveries: self.notices(room) },
            )
        }
    }

    /// The state after a command, and the answer to it.
    pub open spec fn step(self, command: CommandView) -> (ServerView, ReplyView) {
        match command {
            CommandView::Connect { id } => self.connect(id),
            CommandView::Disconnect(id) => self.disconnect(id),
            CommandView::JoinGame { player_id, game_id } => self.join(player_id, game_id),
            CommandView::MakeMove { player_id, game_id, position } => self.make_move(
                player_id,
                game_id,
                position,
            ),
        }
    }
}

/// What the coordinator answers to one command: whether it was turned down,
/// and the events to put on the players' outbound queues, in order.
#[derive(Clone, Debug, PartialEq, Eq)]
pub struct Reply {
    pub rejection: Option<GameError>,
    pub deliveries: Vec<Delivery>,
}

impl View for Reply {
    type V = ReplyView;

    open spec fn view(&self) -> ReplyView {
        ReplyView { rejection: self.rejection, deliveries: deliveries_of(self.deliveries@) }
    }
}

/// The authority over the registry and the rooms.
#[derive(Debug)]
pub struct GameServer {
    sessions: Vec<String>,
    games: Vec<Room>,
}

impl View for GameServer {
    type V = ServerView;

    closed spec fn view(&self) -> ServerView {
        ServerView { sessions: ids_of(self.sessions@), rooms: rooms_of(self.games@) }
    }
}

impl Default for GameServer {
    fn default() -> (server: GameServer)
        ensures
            server.wf(),
            server@ == ServerView::empty(),
    {
        GameServer::new()
    }
}

impl GameServer {
    /// Holds of every coordinator: the constructors establish it and each
    /// command keeps it.
    #[verifier::type_invariant]
    pub closed spec fn inv(&self) -> bool {
        self@.wf()
    }

    pub open spec fn wf(&self) -> bool {
        self@.wf()
    }

    /// A coordinator with no player and no room.
    pub fn new() -> (server: GameServer)
        ensures
            server.wf(),
            server@ == ServerView::empty(),
    {
        let sessions: Vec<String> = Vec::new();
        let games: Vec<Room> = Vec::new();
        assert(ids_of(sessions@) =~= Seq::empty());
        assert(rooms_of(games@) =~= Seq::empty());
        assert(room_ids(rooms_of(games@)) =~= Seq::empty());
        GameServer { sessions, games }
    }

    /// Moves the registry out, leaving an empty one behind.
    fn take_sessions(&mut self) -> (sessions: Vec<String>)
        ensures
            sessions == old(self).sessions,
            final(self).sessions@.len() == 0,
            final(self).games == old(self).games,
    {
        proof {
            use_type_invariant(&*self);
        }
        let mut sessions: Vec<String> = Vec::new();
        assert(ids_of(sessions@) =~= Seq::empty());
        core::mem::swap(&mut self.sessions, &mut sessions);
        sessions
    }

    /// Moves the rooms out, leaving none behind.
    fn take_games(&mut self) -> (games: Vec<Room>)
        ensures
            games == old(self).games,
            final(self).games@.len() == 0,
            final(self).sessions == old(self).sessions,
    {
        proof {
            use_type_invariant(&*self);
        }
        let mut games: Vec<Room> = Vec::new();
        assert(rooms_of(games@) =~= Seq::empty());
        assert(room_ids(rooms_of(games@)) =~= Seq::empty());
        core::mem::swap(&mut self.games, &mut games);
        games
    }

    fn session_index(&self, id: &String) -> (i: usize)
        ensures
            i == index_of(self@.sessions, id@),
            i <= self.sessions@.len(),
    {
        let ghost ids = ids_of(self.sessions@);
        let mut i: usize = 0;
        while i < self.sessions.len()
            invariant
                i <= self.sessions@.len(),
                ids == ids_of(self.sessions@),
                find_from(ids, id@, 0) == find_from(ids, id@, i as int),
            decreases self.sessions@.len() - i,
        {
            assert(ids[i as int] == self.sessions@[i as int]@);
            if self.sessions[i] == *id {
                return i;
            }
            i += 1;
        }
        i
    }

    fn room_index(&self, game: &String) -> (i: usize)
        ensures
            i == self@.room_index(game@),
            i <= self.games@.len(),
    {
        let ghost ids = room_ids(rooms_of(self.games@));
        let mut i: usize = 0;
        while i < self.games.len()
            invariant
                i <= self.games@.len(),
                ids == room_ids(rooms_of(self.games@)),
                find_from(ids, game@, 0) == find_from(ids, game@, i as int),
            decreases self.games@.len() - i,
        {
            assert(ids[i as int] == self.games@[i as int]@.game_id);
            if *self.games[i].game_id() == *game {
                return i;
            }
            i += 1;
        }
        i
    }

    /// Whether `player` is in the registry.
    pub fn is_registered(&self, player: &String) -> (b: bool)
        ensures
            b == self@.registered(player@),
    {
        self.session_index(player) < self.sessions.len()
    }

    /// A copy of the room `game`, if it exists.
    pub fn room(&self, game: &String) -> (found: Option<Room>)
        ensures
            match found {
                Some(room) => self@.has_room(game@) && room@ == self@.rooms[self@.room_index(game@)],
                None => !self@.has_room(game@),
            },
    {
        let i = self.room_index(game);
        if i < self.games.len() {
            Some(self.games[i].snapshot())
        } else {
            None
        }
    }

    /// Queues `message` for `player` where `player` is registered; a message
    /// for anyone else is dropped.
    fn send_to_player(&self, player: &String, message: ClientMessage, out: &mut Vec<Delivery>)
        ensures
            deliveries_of(final(out)@) == deliveries_of(old(out)@) + self@.to_player(
                player@,
                message@,
            ),
    {
        if self.is_registered(player) {
            out.push(Delivery { to: player.clone(), message });
        }
        assert(deliveries_of(out@) =~= deliveries_of(old(out)@) + self@.to_player(
            player@,
            message@,
        ));
    }

    fn notify_seat(&self, game: &Room, seat: &Option<String>, role: Role, out: &mut Vec<Delivery>)
        ensures
            deliveries_of(final(out)@) == deliveries_of(old(out)@) + self@.seat_notices(
                game@,
                seat_view(*seat),
                role,
            ),
    {
        match seat {
            Some(player) => {
                let first_seat = match role {
                    Role::First => true,
                    Role::Second => false,
                };
                self.send_to_player(player, ClientMessage::GameState(game.snapshot()), out);
                self.send_to_player(player, ClientMessage::YourTurn(game.x_turn() == first_seat), out);
                assert(deliveries_of(out@) =~= deliveries_of(old(out)@) + self@.seat_notices(
                    game@,
                    seat_view(*seat),
                    role,
                ));
            },
            None => {
                assert(deliveries_of(out@) =~= deliveries_of(old(out)@) + self@.seat_notices(
                    game@,
                    seat_view(*seat),
                    role,
                ));
            },
        }
    }

    /// Queues the state of `game` and a turn notice for each of its members.
    fn notify_game_state(&self, game: &Room, out: &mut Vec<Delivery>)
        ensures
            deliveries_of(final(out)@) == deliveries_of(old(out)@) + self@.notices(game@),
    {
        let (first, second) = game.seats();
        self.notify_seat(game, &first, Role::First, out);
        self.notify_seat(game, &second, Role::Second, out);
        assert(deliveries_of(out@) =~= deliveries_of(old(out)@) + self@.notices(game@));
    }

    fn reject(&self, player: &String, error: GameError) -> (reply: Reply)
        ensures
            reply@ == self@.rejected(player@, error),
    {
        let mut deliveries: Vec<Delivery> = Vec::new();
        assert(deliveries_of(deliveries@) =~= Seq::empty());
        self.send_to_player(player, ClientMessage::Error(error.message()), &mut deliveries);
        assert(deliveries_of(deliveries@) =~= self@.to_player(
            player@,
            MessageView::Error(error_text(error)),
        ));
        Reply { rejection: Some(error), deliveries }
    }

    fn broadcast(&self, game: &Room) -> (reply: Reply)
        ensures
            reply@ == (ReplyView { rejection: None, deliveries: self@.notices(game@) }),
    {
        let mut deliveries: Vec<Delivery> = Vec::new();
        assert(deliveries_of(deliveries@) =~= Seq::empty());
        self.notify_game_state(game, &mut deliveries);
        assert(deliveries_of(deliveries@) =~= self@.notices(game@));
        Reply { rejection: None, deliveries }
    }

    fn connect(&mut self, id: String) -> (reply: Reply)
        ensures
            final(self).wf(),
            final(self)@ == old(self)@.connect(id@).0,
            reply@ == old(self)@.connect(id@).1,
    {
        proof {
            use_type_invariant(&*self);
        }
        if !self.is_registered(&id) {
            proof {
                lemma_find_from(self@.sessions, id@, 0);
            }
            let mut sessions = self.take_sessions();
            sessions.push(id.clone());
            assert(ids_of(sessions@) =~= old(self)@.sessions.push(id@));
            self.sessions = sessions;
        }
        let mut deliveries: Vec<Delivery> = Vec::new();
        deliveries.push(Delivery { to: id.clone(), message: ClientMessage::Id(id) });
        assert(deliveries_of(deliveries@) =~= seq![
            DeliveryView { to: id@, message: MessageView::Id(id@) },
        ]);
        Reply { rejection: None, deliveries }
    }

    fn disconnect(&mut self, id: &String) -> (reply: Reply)
        ensures
            final(self).wf(),
            final(self)@ == old(self)@.disconnect(id@).0,
            reply@ == old(self)@.disconnect(id@).1,
    {
        proof {
            use_type_invariant(&*self);
        }
        let at = self.session_index(id);
        if at < self.sessions.len() {
            proof {
                lemma_find_from(self@.sessions, id@, 0);
            }
            let mut sessions = self.take_sessions();
            sessions.remove(at);
            assert(ids_of(sessions@) =~= old(self)@.sessions.remove(at as int));
            assert(ids_of(sessions@).no_duplicates()) by {
                let before = old(self)@.sessions;
                assert forall|i: int, j: int|
                    0 <= i < sessions@.len() && 0 <= j < sessions@.len() && i != j implies ids_of(
                    sessions@,
                )[i] != ids_of(sessions@)[j] by {
                    let a = if i < at { i } else { i + 1 };
                    let b = if j < at { j } else { j + 1 };
                    assert(ids_of(sessions@)[i] == before[a]);
                    assert(ids_of(sessions@)[j] == before[b]);
                }
            }
            self.sessions = sessions;
        }
        let mut games = self.take_games();
        let mut i: usize = 0;
        while i < games.len()
            invariant
                i <= games@.len(),
                games@.len() == old(self).games@.len(),
                forall|j: int| 0 <= j < i ==> (#[trigger] games@[j])@ == old(self).games@[j]@.without(id@),
                forall|j: int| i <= j < games@.len() ==> (#[trigger] games@[j])@ == old(self).games@[j]@,
                forall|j: int| 0 <= j < i ==> (#[trigger] games@[j]).wf(),
            decreases games@.len() - i,
        {
            games[i].leave(id);
            i += 1;
        }
        assert(rooms_of(games@) =~= old(self)@.rooms.map_values(|r: RoomView| r.without(id@)));
        assert(room_ids(rooms_of(games@)) =~= room_ids(old(self)@.rooms));
        self.games = games;
        let deliveries: Vec<Delivery> = Vec::new();
        assert(deliveries_of(deliveries@) =~= Seq::empty());
        Reply { rejection: None, deliveries }
    }

    fn join_game(&mut self, player: String, game: String) -> (reply: Reply)
        ensures
            final(self).wf(),
            final(self)@ == old(self)@.join(player@, game@).0,
            reply@ == old(self)@.join(player@, game@).1,
    {
        proof {
            use_type_invariant(&*self);
            lemma_find_from(room_ids(self@.rooms), game@, 0);
        }
        let at = self.room_index(&game);
        let mut games = self.take_games();
        if at == games.len() {
            games.push(Room::new(game));
            assert(rooms_of(games@) =~= old(self)@.rooms.push(RoomView::fresh(game@)));
            assert(room_ids(rooms_of(games@)) =~= room_ids(old(self)@.rooms).push(game@));
        }
        let ghost rooms = rooms_of(games@);
        assert(rooms == old(self)@.with_room(game@));
        assert forall|k: int| 0 <= k < rooms.len() implies (#[trigger] rooms[k]).wf() by {
            if k < old(self)@.rooms.len() {
                assert(old(self)@.rooms[k].wf());
            }
        }
        let rejection = games[at].join(player.clone());
        match rejection {
            Some(error) => {
                assert(rooms_of(games@) =~= rooms);
                self.games = games;
                self.reject(&player, error)
            },
            None => {
                assert(rooms_of(games@) =~= rooms.update(at as int, rooms[at as int].joined(player@)));
                assert(room_ids(rooms_of(games@)) =~= room_ids(rooms));
                assert forall|k: int| 0 <= k < games@.len() implies (#[trigger] rooms_of(games@)[k]).wf() by {
                    assert(rooms[k].wf());
                }
                self.games = games;
                self.broadcast(&self.games[at])
            },
        }
    }

    fn make_move(&mut self, player: &String, game: &String, position: &Vec<usize>) -> (reply: Reply)
        ensures
            final(self).wf(),
            final(self)@ == old(self)@.make_move(player@, game@, position@).0,
            reply@ == old(self)@.make_move(player@, game@, position@).1,
    {
        proof {
            use_type_invariant(&*self);
            lemma_find_from(room_ids(self@.rooms), game@, 0);
        }
        let at = self.room_index(game);
        if at >= self.games.len() {
            return self.reject(player, GameError::NotInGame);
        }
        let mut games = self.take_games();
        let ghost rooms = rooms_of(games@);
        let rejection = games[at].make_move(player, position);
        match rejection {
            Some(error) => {
                assert(rooms_of(games@) =~= rooms);
                self.games = games;
                self.reject(player, error)
            },
            None => {
                assert(rooms_of(games@) =~= rooms.update(
                    at as int,
                    rooms[at as int].moved(player@, position@),
                ));
                assert(room_ids(rooms_of(games@)) =~= room_ids(rooms));
                assert forall|k: int| 0 <= k < games@.len() implies (#[trigger] rooms_of(games@)[k]).wf() by {
                    assert(rooms[k].wf());
                }
                self.games = games;
                self.broadcast(&self.games[at])
            },
        }
    }

    /// Processes one command: updates the registry and the rooms, and answers
    /// with the verdict and the events to deliver.
    pub fn handle(&mut self, msg: ServerMessage) -> (reply: Reply)
        ensures
            final(self).wf(),
            final(self)@ == old(self)@.step(msg@).0,
            reply@ == old(self)@.step(msg@).1,
    {
        match msg {
            ServerMessage::Connect { id } => self.connect(id),
            ServerMessage::Disconnect(id) => self.disconnect(&id),
            ServerMessage::JoinGame { player_id, game_id } => self.join_game(player_id, game_id),
            ServerMessage::MakeMove { player_id, game_id, position } => self.make_move(
                &player_id,
                &game_id,
                &position,
            ),
        }
    }
}

} // verus!
