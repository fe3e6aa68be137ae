//! A room: two seats, a 3x3 board and the turn flag, with the rules of joining,
//! leaving and moving.

use vstd::prelude::*;

verus! {

/// What a cell of the board holds.
#[derive(Clone, Copy, Debug, PartialEq, Eq, Structural)]
pub enum Cell {
    Empty,
    MarkA,
    MarkB,
}

/// The seat a member took when joining. The holder of `First` plays `MarkA`
/// and moves while the turn flag is set.
#[derive(Clone, Copy, Debug, PartialEq, Eq, Structural)]
pub enum Role {
    First,
    Second,
}

/// Why a command was turned down.
#[derive(Clone, Copy, Debug, PartialEq, Eq, Structural)]
pub enum GameError {
    RoomFull,
    NotInGame,
    NotYourTurn,
    InvalidMove,
}

/// The mark that a role puts on the board.
pub open spec fn mark_of(role: Role) -> Cell {
    match role {
        Role::First => Cell::MarkA,
        Role::Second => Cell::MarkB,
    }
}

/// The wire symbol of a cell.
pub open spec fn symbol_of(cell: Cell) -> Seq<char> {
    match cell {
        Cell::Empty => "_"@,
        Cell::MarkA => "X"@,
        Cell::MarkB => "O"@,
    }
}

/// The text reported to the requester for each error.
pub open spec fn error_text(error: GameError) -> Seq<char> {
    match error {
        GameError::RoomFull => "Game is full"@,
        GameError::NotInGame => "Not in game"@,
        GameError::NotYourTurn => "Not your turn"@,
        GameError::InvalidMove => "Invalid move"@,
    }
}

/// Row-major index of a position, where the position is a pair inside the board.
pub open spec fn cell_index(position: Seq<usize>) -> Option<int> {
    if position.len() == 2 && position[0] < 3 && position[1] < 3 {
        Some(position[0] * 3 + position[1])
    } else {
        None
    }
}

/// Mathematical model of a room.
pub struct RoomView {
    pub game_id: Seq<char>,
    pub first: Option<Seq<char>>,
    pub second: Option<Seq<char>>,
    pub board: Seq<Cell>,
    pub x_turn: bool,
}

impl RoomView {
    /// Nine cells, and the two seats never hold the same player.
    pub open spec fn wf(self) -> bool {
        &&& self.board.len() == 9
        &&& (self.first is Some && self.second is Some ==> self.first != self.second)
    }

    /// A room nobody has joined: empty board, `First` to move.
    pub open spec fn fresh(game_id: Seq<char>) -> RoomView {
        RoomView {
            game_id,
            first: None,
            second: None,
            board: Seq::new(9, |i: int| Cell::Empty),
            x_turn: true,
        }
    }

    /// The members in seat order.
    pub open spec fn members(self) -> Seq<Seq<char>> {
        let a = if self.first is Some { seq![self.first->0] } else { Seq::empty() };
        let b = if self.second is Some { seq![self.second->0] } else { Seq::empty() };
        a + b
    }

    pub open spec fn is_full(self) -> bool {
        self.first is Some && self.second is Some
    }

    pub open spec fn role_of(self, player: Seq<char>) -> Option<Role> {
        if self.first == Some(player) {
            Some(Role::First)
        } else if self.second == Some(player) {
            Some(Role::Second)
        } else {
            None
        }
    }

    /// Whether the member holding `role` moves next.
    pub open spec fn is_turn_of(self, role: Role) -> bool {
        self.x_turn == (role == Role::First)
    }

    /// The room after `player` joined a room that is not full: a member keeps
    /// the seat it has, a newcomer takes the first free seat.
    pub open spec fn joined(self, player: Seq<char>) -> RoomView {
        if self.role_of(player) is Some {
            self
        } else if self.first is None {
            RoomView { first: Some(player), ..self }
        } else {
            RoomView { second: Some(player), ..self }
        }
    }

    /// The room with `player` removed from whichever seat it held.
    pub open spec fn without(self, player: Seq<char>) -> RoomView {
        RoomView {
            first: if self.first == Some(player) { None } else { self.first },
            second: if self.second == Some(player) { None } else { self.second },
            ..self
        }
    }

    /// Why a move is turned down, or `None` where it is accepted. The checks
    /// come in this order: membership, turn, position.
    pub open spec fn move_rejection(self, player: Seq<char>, position: Seq<usize>) -> Option<GameError> {
        let role = self.role_of(player);
        if role is None {
            Some(GameError::NotInGame)
        } else if !self.is_turn_of(role->0) {
            Some(GameError::NotYourTurn)
        } else if cell_index(position) is None {
            Some(GameError::InvalidMove)
        } else if self.board[cell_index(position)->0] != Cell::Empty {
            Some(GameError::InvalidMove)
        } else {
            None
        }
    }

    /// The room after an accepted move: the cell holds the mover's mark and
    /// the turn flag is flipped.
    pub open spec fn moved(self, player: Seq<char>, position: Seq<usize>) -> RoomView {
        RoomView {
            board: self.board.update(cell_index(position)->0, mark_of(self.role_of(player)->0)),
            x_turn: !self.x_turn,
            ..self
        }
    }

    /// The room after a move command, accepted or not.
    pub open spec fn after_move(self, player: Seq<char>, position: Seq<usize>) -> RoomView {
        if self.move_rejection(player, position) is None {
            self.moved(player, position)
        } else {
            self
        }
    }
}

/// The views of a sequence of identifiers.
pub open spec fn ids_of(names: Seq<String>) -> Seq<Seq<char>> {
    names.map_values(|s: String| s@)
}

pub open spec fn seat_view(seat: Option<String>) -> Option<Seq<char>> {
    match seat {
        Some(s) => Some(s@),
        None => None,
    }
}

impl Cell {
    /// The wire symbol: `_`, `X` or `O`.
    pub fn symbol(self) -> (s: String)
        ensures
            s@ == symbol_of(self),
    {
        match self {
            Cell::Empty => "_".to_owned(),
            Cell::MarkA => "X".to_owned(),
            Cell::MarkB => "O".to_owned(),
        }
    }
}

impl Role {
    pub fn mark(self) -> (c: Cell)
        ensures
            c == mark_of(self),
    {
        match self {
            Role::First => Cell::MarkA,
            Role::Second => Cell::MarkB,
        }
    }
}

impl GameError {
    /// The text sent to the requester.
    pub fn message(self) -> (s: String)
        ensures
            s@ == error_text(self),
    {
        match self {
            GameError::RoomFull => "Game is full".to_owned(),
            GameError::NotInGame => "Not in game".to_owned(),
            GameError::NotYourTurn => "Not your turn".to_owned(),
            GameError::InvalidMove => "Invalid move".to_owned(),
        }
    }
}

/// One game in progress.
#[derive(Debug, PartialEq, Eq)]
pub struct Room {
    game_id: String,
    first: Option<String>,
    second: Option<String>,
    board: Vec<Cell>,
    x_turn: bool,
}

impl View for Room {
    type V = RoomView;

    closed spec fn view(&self) -> RoomView {
        RoomView {
            game_id: self.game_id@,
            first: seat_view(self.first),
            second: seat_view(self.second),
            board: self.board@,
            x_turn: self.x_turn,
        }
    }
}

impl Clone for Room {
    fn clone(&self) -> (copy: Room)
        ensures
            copy@ == self@,
    {
        self.snapshot()
    }
}

fn seat_holds(seat: &Option<String>, player: &String) -> (b: bool)
    ensures
        b == (seat_view(*seat) == Some(player@)),
{
    match seat {
        Some(s) => *s == *player,
        None => false,
    }
}

fn seat_copy(seat: &Option<String>) -> (c: Option<String>)
    ensures
        seat_view(c) == seat_view(*seat),
{
    match seat {
        Some(s) => Some(s.clone()),
        None => None,
    }
}

impl Room {
    /// Holds of every room: the constructors establish it and each method
    /// keeps it.
    #[verifier::type_invariant]
    pub closed spec fn inv(&self) -> bool {
        self@.wf()
    }

    pub open spec fn wf(&self) -> bool {
        self@.wf()
    }

    /// A room nobody has joined yet.
    pub fn new(game_id: String) -> (room: Room)
        ensures
            room@ == RoomView::fresh(game_id@),
            room.wf(),
    {
        let mut board: Vec<Cell> = Vec::new();
        let mut i: usize = 0;
        while i < 9
            invariant
                i <= 9,
                board@.len() == i,
                forall|j: int| 0 <= j < i ==> board@[j] == Cell::Empty,
            decreases 9 - i,
        {
            board.push(Cell::Empty);
            i += 1;
        }
        assert(board@ =~= Seq::new(9, |i: int| Cell::Empty));
        Room { game_id, first: None, second: None, board, x_turn: true }
    }

    pub fn game_id(&self) -> (id: &String)
        ensures
            id@ == self@.game_id,
    {
        &self.game_id
    }

    /// Whether the holder of `Role::First` moves next.
    pub fn x_turn(&self) -> (b: bool)
        ensures
            b == self@.x_turn,
    {
        self.x_turn
    }

    /// Whether both seats are taken.
    pub fn game_ready(&self) -> (b: bool)
        ensures
            b == self@.is_full(),
    {
        self.first.is_some() && self.second.is_some()
    }

    /// The members in seat order.
    pub fn players(&self) -> (names: Vec<String>)
        ensures
            ids_of(names@) == self@.members(),
    {
        let mut names: Vec<String> = Vec::new();
        match &self.first {
            Some(s) => {
                names.push(s.clone());
            },
            None => {},
        }
        match &self.second {
            Some(s) => {
                names.push(s.clone());
            },
            None => {},
        }
        assert(ids_of(names@) =~= self@.members());
        names
    }

    /// The cell at `row`, `col`.
    pub fn cell(&self, row: usize, col: usize) -> (c: Cell)
        requires
            row < 3,
            col < 3,
        ensures
            c == self@.board[row * 3 + col],
    {
        proof {
            use_type_invariant(self);
        }
        self.board[row * 3 + col]
    }

    /// The board as it goes on the wire: three rows of three symbols.
    pub fn board_rows(&self) -> (rows: Vec<Vec<String>>)
        ensures
            rows@.len() == 3,
            forall|r: int| 0 <= r < 3 ==> (#[trigger] rows@[r])@.len() == 3,
            forall|r: int, c: int|
                0 <= r < 3 && 0 <= c < 3 ==> (#[trigger] rows@[r]@[c])@ == symbol_of(
                    self@.board[r * 3 + c],
                ),
    {
        proof {
            use_type_invariant(self);
        }
        let mut rows: Vec<Vec<String>> = Vec::new();
        let mut r: usize = 0;
        while r < 3
            invariant
                r <= 3,
                self.wf(),
                rows@.len() == r,
                forall|i: int| 0 <= i < r ==> (#[trigger] rows@[i])@.len() == 3,
                forall|i: int, c: int|
                    0 <= i < r && 0 <= c < 3 ==> (#[trigger] rows@[i]@[c])@ == symbol_of(
                        self@.board[i * 3 + c],
                    ),
            decreases 3 - r,
        {
            let mut row: Vec<String> = Vec::new();
            let mut c: usize = 0;
            while c < 3
                invariant
                    r < 3,
                    c <= 3,
                    self.wf(),
                    row@.len() == c,
                    forall|j: int|
                        0 <= j < c ==> (#[trigger] row@[j])@ == symbol_of(self@.board[r * 3 + j]),
                decreases 3 - c,
            {
                row.push(self.board[r * 3 + c].symbol());
                c += 1;
            }
            rows.push(row);
            r += 1;
        }
        rows
    }

    /// The seat that `player` holds, if any.
    pub fn role_of(&self, player: &String) -> (role: Option<Role>)
        ensures
            role == self@.role_of(player@),
    {
        if seat_holds(&self.first, player) {
            Some(Role::First)
        } else if seat_holds(&self.second, player) {
            Some(Role::Second)
        } else {
            None
        }
    }

    /// Copies of the two seats, the holder of `Role::First` first.
    pub fn seats(&self) -> (seats: (Option<String>, Option<String>))
        ensures
            seat_view(seats.0) == self@.first,
            seat_view(seats.1) == self@.second,
    {
        (seat_copy(&self.first), seat_copy(&self.second))
    }

    /// Seats `player`. A full room turns everyone down, members included, and
    /// stays as it is.
    pub fn join(&mut self, player: String) -> (rejection: Option<GameError>)
        ensures
            final(self).wf(),
            old(self)@.is_full() ==> rejection == Some(GameError::RoomFull)
                && final(self)@ == old(self)@,
            !old(self)@.is_full() ==> rejection is None
                && final(self)@ == old(self)@.joined(player@),
    {
        proof {
            use_type_invariant(&*self);
        }
        if self.first.is_some() && self.second.is_some() {
            return Some(GameError::RoomFull);
        }
        if self.role_of(&player).is_some() {
            return None;
        }
        if self.first.is_none() {
            self.first = Some(player);
        } else {
            self.second = Some(player);
        }
        None
    }

    /// Frees the seat that `player` holds, if any.
    pub fn leave(&mut self, player: &String)
        ensures
            final(self).wf(),
            final(self)@ == old(self)@.without(player@),
    {
        proof {
            use_type_invariant(&*self);
        }
        if seat_holds(&self.first, player) {
            self.first = None;
        }
        if seat_holds(&self.second, player) {
            self.second = None;
        }
    }

    /// Applies a move if the rules accept it, and says why not otherwise.
    pub fn make_move(&mut self, player: &String, position: &Vec<usize>) -> (rejection: Option<
        GameError,
    >)
        ensures
            final(self).wf(),
            rejection == old(self)@.move_rejection(player@, position@),
            final(self)@ == old(self)@.after_move(player@, position@),
    {
        proof {
            use_type_invariant(&*self);
        }
        let role = match self.role_of(player) {
            Some(role) => role,
            None => {
                return Some(GameError::NotInGame);
            },
        };
        let first_moves = match role {
            Role::First => true,
            Role::Second => false,
        };
        if self.x_turn != first_moves {
            return Some(GameError::NotYourTurn);
        }
        if position.len() != 2 {
            return Some(GameError::InvalidMove);
        }
        let row: usize = position[0];
        let col: usize = position[1];
        if row >= 3 || col >= 3 {
            return Some(GameError::InvalidMove);
        }
        let index: usize = row * 3 + col;
        if self.board[index] != Cell::Empty {
            return Some(GameError::InvalidMove);
        }
        let mark = role.mark();
        let mut board: Vec<Cell> = Vec::new();
        let mut i: usize = 0;
        while i < 9
            invariant
                i <= 9,
                index < 9,
                self.board@.len() == 9,
                board@ == self.board@.update(index as int, mark).take(i as int),
            decreases 9 - i,
        {
            board.push(if i == index { mark } else { self.board[i] });
            assert(board@ =~= self.board@.update(index as int, mark).take(i + 1));
            i += 1;
        }
        assert(board@ =~= self.board@.update(index as int, mark));
        self.board = board;
        self.x_turn = !self.x_turn;
        None
    }

    /// An independent copy of the room.
    pub fn snapshot(&self) -> (copy: Room)
        ensures
            copy@ == self@,
    {
        proof {
            use_type_invariant(self);
        }
        let mut board: Vec<Cell> = Vec::new();
        let mut i: usize = 0;
        while i < self.board.len()
            invariant
                i <= self.board@.len(),
                board@ == self.board@.take(i as int),
            decreases self.board@.len() - i,
        {
            board.push(self.board[i]);
            assert(board@ =~= self.board@.take(i + 1));
            i += 1;
        }
        assert(board@ =~= self.board@);
        Room {
            game_id: self.game_id.clone(),
            first: seat_copy(&self.first),
            second: seat_copy(&self.second),
            board,
            x_turn: self.x_turn,
        }
    }
}

} // verus!
