//! The tic-tac-toe game engine: a 3×3 board, two players, a turn counter and
//! a status that becomes terminal at most once.
use vstd::prelude::*;

verus! {

broadcast use vstd::array::group_array_axioms;

/// An opaque 32-byte identity token naming a participant.
#[derive(Clone, Copy, Debug, PartialEq, Eq)]
pub struct PlayerKey {
    pub bytes: [u8; 32],
}

impl PlayerKey {
    pub fn new(bytes: [u8; 32]) -> (r: PlayerKey)
        ensures
            r.bytes == bytes,
    {
        PlayerKey { bytes }
    }

    /// Compares two identities byte by byte.
    pub fn same_as(&self, other: &PlayerKey) -> (r: bool)
        ensures
            r == (*self == *other),
    {
        let mut i: usize = 0;
        while i < 32
            invariant
                0 <= i <= 32,
                forall|j: int| 0 <= j < i ==> self.bytes[j] == other.bytes[j],
            decreases 32 - i,
        {
            if self.bytes[i] != other.bytes[i] {
                return false;
            }
            i = i + 1;
        }
        assert(self.bytes =~= other.bytes);
        true
    }
}

/// The mark a player places on the board.
#[derive(Clone, Copy, Debug, PartialEq, Eq, Structural)]
pub enum Sign {
    X,
    O,
}

/// A board position chosen by the mover.
#[derive(Clone, Copy, Debug, PartialEq, Eq, Structural)]
pub struct Tile {
    pub row: u8,
    pub column: u8,
}

impl Tile {
    pub fn new(row: u8, column: u8) -> (r: Tile)
        ensures
            r.row == row,
            r.column == column,
    {
        Tile { row, column }
    }
}

/// Whether the game is still running, ended without a winner, or was won.
#[derive(Clone, Copy, Debug, PartialEq, Eq)]
pub enum GameState {
    Active,
    Tie,
    Won { winner: PlayerKey },
}

/// What a rejected call reports.
#[derive(Clone, Copy, Debug, PartialEq, Eq, Structural)]
pub enum TicTacToeError {
    TileAlreadySet,
    TileOutOfBounds,
    GameAlreadyOver,
    GameAlreadyStarted,
    NotPlayersTurn,
}

/// One match. The board is stored row by row: the cell at row `r` and
/// column `c` is `board[3 * r + c]`.
#[derive(Clone, Copy, Debug)]
pub struct Game {
    pub players: [PlayerKey; 2],
    pub turn: u8,
    pub board: [Option<Sign>; 9],
    pub state: GameState,
}

/// Number of marked cells.
pub open spec fn count_filled(b: Seq<Option<Sign>>) -> nat
    decreases b.len(),
{
    if b.len() == 0 {
        0
    } else {
        count_filled(b.drop_last()) + if b.last() is Some { 1nat } else { 0nat }
    }
}

pub open spec fn is_full(b: Seq<Option<Sign>>) -> bool {
    forall|i: int| 0 <= i < b.len() ==> (#[trigger] b[i]) is Some
}

/// Three cells hold the same mark.
pub open spec fn trio_wins(b: Seq<Option<Sign>>, i: int, j: int, k: int) -> bool {
    b[i] is Some && b[i] == b[j] && b[i] == b[k]
}

pub open spec fn row_wins(b: Seq<Option<Sign>>, r: int) -> bool {
    trio_wins(b, 3 * r, 3 * r + 1, 3 * r + 2)
}

pub open spec fn column_wins(b: Seq<Option<Sign>>, c: int) -> bool {
    trio_wins(b, c, c + 3, c + 6)
}

/// The eight lines, as cell indices: rows, then columns, then the two
/// diagonals.
pub open spec fn line(k: int) -> (int, int, int) {
    if 0 <= k < 3 {
        (3 * k, 3 * k + 1, 3 * k + 2)
    } else if 3 <= k < 6 {
        (k - 3, k, k + 3)
    } else if k == 6 {
        (0, 4, 8)
    } else {
        (2, 4, 6)
    }
}

/// Some row, column or diagonal holds three identical marks.
pub open spec fn has_line(b: Seq<Option<Sign>>) -> bool {
    row_wins(b, 0) || row_wins(b, 1) || row_wins(b, 2) || column_wins(b, 0) || column_wins(b, 1)
        || column_wins(b, 2) || trio_wins(b, 0, 4, 8) || trio_wins(b, 2, 4, 6)
}

/// The status after a move by `mover` left the board `b`.
pub open spec fn outcome(b: Seq<Option<Sign>>, mover: PlayerKey) -> GameState {
    if has_line(b) {
        GameState::Won { winner: mover }
    } else if is_full(b) {
        GameState::Tie
    } else {
        GameState::Active
    }
}

/// Index into `players` of whoever moves on `turn` (counted from 1).
pub open spec fn player_index(turn: int) -> int {
    (turn - 1) % 2
}

pub open spec fn sign_of(index: int) -> Sign {
    if index == 0 {
        Sign::X
    } else {
        Sign::O
    }
}

pub open spec fn cell_index(tile: Tile) -> int {
    3 * tile.row + tile.column
}

/// Why a move of `tile` on `g` is refused, if it is.
pub open spec fn move_error(g: Game, tile: Tile) -> Option<TicTacToeError> {
    if !(g.state is Active) {
        Some(TicTacToeError::GameAlreadyOver)
    } else if tile.row > 2 || tile.column > 2 {
        Some(TicTacToeError::TileOutOfBounds)
    } else if g.board@[cell_index(tile)] is Some {
        Some(TicTacToeError::TileAlreadySet)
    } else {
        None
    }
}

/// `after` is `before` once the current player marked `tile`.
pub open spec fn move_applied(before: Game, tile: Tile, after: Game) -> bool {
    let mover = player_index(before.turn as int);
    let b = before.board@.update(cell_index(tile), Some(sign_of(mover)));
    &&& after.players == before.players
    &&& after.board@ == b
    &&& after.state == outcome(b, before.players[mover])
    &&& after.turn == if after.state is Active {
        before.turn + 1
    } else {
        before.turn as int
    }
}

/// Marking cell `i`, which was empty, adds one to the count.
proof fn lemma_count_update(b: Seq<Option<Sign>>, i: int, s: Sign)
    requires
        0 <= i < b.len(),
        b[i] is None,
    ensures
        count_filled(b.update(i, Some(s))) == count_filled(b) + 1,
    decreases b.len(),
{
    let u = b.update(i, Some(s));
    if i == b.len() - 1 {
        assert(u.drop_last() =~= b.drop_last());
    } else {
        assert(u.drop_last() =~= b.drop_last().update(i, Some(s)));
        lemma_count_update(b.drop_last(), i, s);
    }
}

/// A board with an empty cell has fewer marks than cells.
proof fn lemma_count_bound(b: Seq<Option<Sign>>)
    ensures
        count_filled(b) <= b.len(),
        !is_full(b) ==> count_filled(b) < b.len(),
    decreases b.len(),
{
    if b.len() > 0 {
        lemma_count_bound(b.drop_last());
        if !is_full(b) && b.last() is Some {
            let i = choose|i: int| 0 <= i < b.len() && !(b[i] is Some);
            assert(b.drop_last()[i] == b[i]);
        }
    }
}

/// An empty board has no marks.
proof fn lemma_count_empty(b: Seq<Option<Sign>>)
    requires
        forall|i: int| 0 <= i < b.len() ==> (#[trigger] b[i]) is None,
    ensures
        count_filled(b) == 0,
    decreases b.len(),
{
    if b.len() > 0 {
        lemma_count_empty(b.drop_last());
    }
}

impl Game {
    /// Marks placed so far match the turn counter, which stays at most 9.
    pub open spec fn wf(self) -> bool {
        let n = count_filled(self.board@);
        &&& self.turn <= 9
        &&& self.turn == 0 ==> n == 0 && self.state is Active
        &&& self.turn >= 1 && self.state is Active ==> n == self.turn - 1
        &&& self.turn >= 1 && !(self.state is Active) ==> n == self.turn
    }

    /// A blank record: no players yet, turn 0, empty board.
    pub fn new() -> (r: Game)
        ensures
            r.wf(),
            r.turn == 0,
            r.state is Active,
            forall|i: int| 0 <= i < 9 ==> r.board@[i] is None,
    {
        let blank = PlayerKey { bytes: [0u8; 32] };
        let r = Game { players: [blank, blank], turn: 0, board: [None; 9], state: GameState::Active };
        proof {
            lemma_count_empty(r.board@);
        }
        r
    }

    /// Checks `wf` on a record that came from elsewhere (storage, the wire).
    pub fn is_well_formed(&self) -> (r: bool)
        ensures
            r == self.wf(),
    {
        let mut filled: u8 = 0;
        let mut i: usize = 0;
        while i < 9
            invariant
                0 <= i <= 9,
                filled == count_filled(self.board@.subrange(0, i as int)),
                filled <= i,
            decreases 9 - i,
        {
            proof {
                assert(self.board@.subrange(0, i + 1).drop_last() =~= self.board@.subrange(0, i as int));
            }
            if self.board[i].is_some() {
                filled = filled + 1;
            }
            i = i + 1;
        }
        assert(self.board@.subrange(0, 9) =~= self.board@);
        let active = self.is_active();
        if self.turn > 9 {
            false
        } else if self.turn == 0 {
            filled == 0 && active
        } else if active {
            filled == self.turn - 1
        } else {
            filled == self.turn
        }
    }

    /// Assigns the players and opens turn 1; refused once the game has begun.
    pub fn start(&mut self, players: [PlayerKey; 2]) -> (r: Result<(), TicTacToeError>)
        requires
            old(self).wf(),
        ensures
            final(self).wf(),
            r is Ok <==> old(self).turn == 0,
            r is Ok ==> final(self).players == players && final(self).turn == 1
                && final(self).board == old(self).board && final(self).state is Active,
            r is Err ==> r == Err::<(), TicTacToeError>(TicTacToeError::GameAlreadyStarted)
                && *final(self) == *old(self),
    {
        if self.turn != 0 {
            return Err(TicTacToeError::GameAlreadyStarted);
        }
        self.players = players;
        self.turn = 1;
        Ok(())
    }

    pub fn is_active(&self) -> (r: bool)
        ensures
            r == (self.state is Active),
    {
        matches!(self.state, GameState::Active)
    }

    /// 0 on odd turns, 1 on even ones.
    pub fn current_player_index(&self) -> (r: usize)
        requires
            self.turn >= 1,
        ensures
            r == player_index(self.turn as int),
            r < 2,
    {
        ((self.turn - 1) % 2) as usize
    }

    pub fn current_player(&self) -> (r: PlayerKey)
        requires
            self.turn >= 1,
        ensures
            r == self.players[player_index(self.turn as int)],
    {
        self.players[self.current_player_index()]
    }

    /// The three cells named by `trio`, as (row, column) pairs, hold the same mark.
    fn is_winning_trio(&self, trio: [(usize, usize); 3]) -> (r: bool)
        requires
            forall|k: int| 0 <= k < 3 ==> trio[k].0 < 3 && trio[k].1 < 3,
        ensures
            r == trio_wins(
                self.board@,
                3 * trio[0].0 + trio[0].1,
                3 * trio[1].0 + trio[1].1,
                3 * trio[2].0 + trio[2].1,
            ),
    {
        let first = trio[0];
        let second = trio[1];
        let third = trio[2];
        let a = self.board[3 * first.0 + first.1];
        let b = self.board[3 * second.0 + second.1];
        let c = self.board[3 * third.0 + third.1];
        match (a, b, c) {
            (Some(x), Some(y), Some(z)) => x == y && x == z,
            _ => false,
        }
    }

    /// Sets the status from the board after the current player's mark was
    /// placed: won if a line is complete, a tie if the board is full.
    fn update_state(&mut self)
        requires
            old(self).turn >= 1,
            old(self).state is Active,
        ensures
            final(self).players == old(self).players,
            final(self).board == old(self).board,
            final(self).turn == old(self).turn,
            final(self).state == outcome(
                old(self).board@,
                old(self).players[player_index(old(self).turn as int)],
            ),
    {
        let ghost b = self.board@;
        let ghost g0 = *self;
        let mut i: usize = 0;
        while i <= 2
            invariant
                0 <= i <= 3,
                self.board@ == b,
                *self == g0,
                g0 == *old(self),
                g0.turn >= 1,
                g0.state is Active,
                forall|k: int| 0 <= k < i ==> !row_wins(b, k) && !column_wins(b, k),
            decreases 3 - i,
        {
            if self.is_winning_trio([(i, 0), (i, 1), (i, 2)]) {
                self.state = GameState::Won { winner: self.current_player() };
                return;
            }
            if self.is_winning_trio([(0, i), (1, i), (2, i)]) {
                self.state = GameState::Won { winner: self.current_player() };
                return;
            }
            i = i + 1;
        }
        if self.is_winning_trio([(0, 0), (1, 1), (2, 2)]) || self.is_winning_trio(
            [(0, 2), (1, 1), (2, 0)],
        ) {
            self.state = GameState::Won { winner: self.current_player() };
            return;
        }
        assert(!has_line(b));
        let mut idx: usize = 0;
        while idx < 9
            invariant
                0 <= idx <= 9,
                *self == g0,
                g0 == *old(self),
                g0.turn >= 1,
                g0.state is Active,
                self.board@ == b,
                !has_line(b),
                forall|j: int| 0 <= j < idx ==> (#[trigger] b[j]) is Some,
            decreases 9 - idx,
        {
            if self.board[idx].is_none() {
                assert(!is_full(b));
                return;
            }
            idx = idx + 1;
        }
        assert(is_full(b));
        self.state = GameState::Tie;
    }

    /// The current player marks `tile`. Refused, with nothing changed, when
    /// the game is over, the tile is off the board, or the cell is taken.
    pub fn play(&mut self, tile: &Tile) -> (r: Result<(), TicTacToeError>)
        requires
            old(self).wf(),
            old(self).turn >= 1,
        ensures
            final(self).wf(),
            r is Ok <==> move_error(*old(self), *tile) is None,
            r is Ok ==> move_applied(*old(self), *tile, *final(self)),
            r matches Err(e) ==> Some(e) == move_error(*old(self), *tile)
                && *final(self) == *old(self),
    {
        if !self.is_active() {
            return Err(TicTacToeError::GameAlreadyOver);
        }
        if tile.row > 2 || tile.column > 2 {
            return Err(TicTacToeError::TileOutOfBounds);
        }
        let idx: usize = 3 * (tile.row as usize) + (tile.column as usize);
        if self.board[idx].is_some() {
            return Err(TicTacToeError::TileAlreadySet);
        }
        let mark = if self.current_player_index() == 0 {
            Sign::X
        } else {
            Sign::O
        };
        let ghost before = self.board@;
        self.board[idx] = Some(mark);
        proof {
            lemma_count_update(before, idx as int, mark);
        }
        self.update_state();
        if self.is_active() {
            proof {
                lemma_count_bound(self.board@);
            }
            self.turn = self.turn + 1;
        }
        Ok(())
    }
}

} // verus!
