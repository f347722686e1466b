use vstd::prelude::*;

use crate::errors::TicTacToeError;

verus! {

/// A player's public key: an opaque 32-byte identifier, compared only for equality.
#[derive(Clone, Copy, Debug, Eq)]
pub struct Pubkey {
    pub bytes: [u8; 32],
}

impl PartialEq for Pubkey {
    fn eq(&self, other: &Pubkey) -> (r: bool)
        ensures
            r == (self == other),
    {
        let mut i: usize = 0;
        while i < 32
            invariant
                0 <= i <= 32,
                forall|j: int| 0 <= j < i ==> self.bytes[j] == other.bytes[j],
            decreases 32 - i,
        {
            if self.bytes[i] != other.bytes[i] {
                return false;
            }
            i = i + 1;
        }
        proof {
            assert(self.bytes =~= other.bytes);
        }
        true
    }
}

impl vstd::std_specs::cmp::PartialEqSpecImpl for Pubkey {
    open spec fn obeys_eq_spec() -> bool {
        true
    }

    open spec fn eq_spec(&self, other: &Pubkey) -> bool {
        self == other
    }
}

/// The mark a player puts on a cell: `X` for the player who moves first, `O` for the other.
#[derive(Clone, Copy, Debug, PartialEq, Eq, Structural)]
pub enum Sign {
    X,
    O,
}

/// A board coordinate. Only rows and columns 0, 1 and 2 lie on the board.
#[derive(Clone, Copy, Debug, PartialEq, Eq, Structural)]
pub struct Tile {
    pub row: u8,
    pub column: u8,
}

/// Whether a game still accepts moves, and how it ended if not.
#[derive(Clone, Copy, Debug, PartialEq, Eq)]
pub enum GameState {
    Active,
    Tie,
    Won { winner: Pubkey },
}

/// A 3x3 grid of cells, indexed by row and then by column.
pub type Board = [[Option<Sign>; 3]; 3];

/// The state of one game between two players.
pub struct Game {
    players: [Pubkey; 2],
    turn: u8,
    board: Board,
    state: GameState,
}

/// The mathematical model of a `Game`.
pub struct GameView {
    pub players: Seq<Pubkey>,
    /// 0 before the game starts; afterwards the number of the move to be made next,
    /// or of the last move once the game is over.
    pub turn: nat,
    pub board: Seq<Seq<Option<Sign>>>,
    pub state: GameState,
}

/// The sign played on the given turn (turns count from 1): `X` on odd turns, `O` on even ones.
pub open spec fn sign_for_turn(turn: int) -> Sign {
    if (turn - 1) % 2 == 0 {
        Sign::X
    } else {
        Sign::O
    }
}

pub open spec fn occupied(cell: Option<Sign>) -> int {
    if cell is Some {
        1
    } else {
        0
    }
}

pub open spec fn row_filled(row: Seq<Option<Sign>>) -> int {
    occupied(row[0]) + occupied(row[1]) + occupied(row[2])
}

/// How many cells of the board hold a sign.
pub open spec fn filled_count(b: Seq<Seq<Option<Sign>>>) -> int {
    row_filled(b[0]) + row_filled(b[1]) + row_filled(b[2])
}

/// Every cell of the board holds a sign.
pub open spec fn board_full(b: Seq<Seq<Option<Sign>>>) -> bool {
    forall|r: int, c: int| 0 <= r < 3 && 0 <= c < 3 ==> (#[trigger] b[r][c]) is Some
}

/// The three cells hold a sign, and the same one.
pub open spec fn trio_wins(
    b: Seq<Seq<Option<Sign>>>,
    a: (int, int),
    m: (int, int),
    z: (int, int),
) -> bool {
    &&& b[a.0][a.1] is Some
    &&& b[a.0][a.1] == b[m.0][m.1]
    &&& b[a.0][a.1] == b[z.0][z.1]
}

pub open spec fn row_wins(b: Seq<Seq<Option<Sign>>>, i: int) -> bool {
    trio_wins(b, (i, 0), (i, 1), (i, 2))
}

pub open spec fn column_wins(b: Seq<Seq<Option<Sign>>>, i: int) -> bool {
    trio_wins(b, (0, i), (1, i), (2, i))
}

/// One of the eight lines (three rows, three columns, two diagonals) is complete.
pub open spec fn has_winning_line(b: Seq<Seq<Option<Sign>>>) -> bool {
    ||| row_wins(b, 0)
    ||| row_wins(b, 1)
    ||| row_wins(b, 2)
    ||| column_wins(b, 0)
    ||| column_wins(b, 1)
    ||| column_wins(b, 2)
    ||| trio_wins(b, (0, 0), (1, 1), (2, 2))
    ||| trio_wins(b, (0, 2), (1, 1), (2, 0))
}

/// The state after `mover` completed a move that left the board `b`.
pub open spec fn evaluate(b: Seq<Seq<Option<Sign>>>, mover: Pubkey) -> GameState {
    if has_winning_line(b) {
        GameState::Won { winner: mover }
    } else if board_full(b) {
        GameState::Tie
    } else {
        GameState::Active
    }
}

pub open spec fn tile_in_bounds(tile: Tile) -> bool {
    tile.row <= 2 && tile.column <= 2
}

impl GameView {
    /// The invariant of every game: an unstarted game is blank, and otherwise the turn
    /// counts the signs on the board (one ahead while the game goes on).
    pub open spec fn wf(self) -> bool {
        &&& self.players.len() == 2
        &&& self.board.len() == 3
        &&& forall|r: int| 0 <= r < 3 ==> (#[trigger] self.board[r]).len() == 3
        &&& self.turn == 0 ==> self.state is Active && filled_count(self.board) == 0
        &&& self.turn >= 1 ==> filled_count(self.board) == if self.state is Active {
            self.turn - 1
        } else {
            self.turn as int
        }
        &&& self.state is Active ==> filled_count(self.board) < 9 && !has_winning_line(
            self.board,
        )
    }

    pub open spec fn current_player_index(self) -> int {
        (self.turn - 1) % 2
    }

    pub open spec fn current_player(self) -> Pubkey {
        self.players[self.current_player_index()]
    }

    /// The game after the current player put their sign on the empty cell (`row`, `col`).
    pub open spec fn after_move(self, row: int, col: int) -> GameView {
        let board = self.board.update(
            row,
            self.board[row].update(col, Some(sign_for_turn(self.turn as int))),
        );
        let state = evaluate(board, self.current_player());
        GameView {
            players: self.players,
            turn: if state is Active {
                self.turn + 1
            } else {
                self.turn
            },
            board,
            state,
        }
    }

    /// Why a move on `tile` is refused, checked in order: the game is over,
    /// the tile is off the board, the cell is taken.
    pub open spec fn move_error(self, tile: Tile) -> Option<TicTacToeError> {
        if !(self.state is Active) {
            Some(TicTacToeError::GameAlreadyOver)
        } else if !tile_in_bounds(tile) {
            Some(TicTacToeError::TileOutOfBounds)
        } else if self.board[tile.row as int][tile.column as int] is Some {
            Some(TicTacToeError::TileAlreadySet)
        } else {
            None
        }
    }

    /// Why `player` may not play `tile`: it is not their turn (or the game has not
    /// started), or one of the reasons of `move_error`.
    pub open spec fn play_error(self, player: Pubkey, tile: Tile) -> Option<TicTacToeError> {
        if self.turn == 0 || player != self.current_player() {
            Some(TicTacToeError::NotPlayersTurn)
        } else {
            self.move_error(tile)
        }
    }

    /// A rejected move leaves the game as it was; an accepted one is `after_move`.
    pub open spec fn apply(self, err: Option<TicTacToeError>, tile: Tile) -> (
        Result<(), TicTacToeError>,
        GameView,
    ) {
        match err {
            Some(e) => (Err(e), self),
            None => (Ok(()), self.after_move(tile.row as int, tile.column as int)),
        }
    }

    /// The result and the new game when the current player plays `tile`.
    pub open spec fn move_outcome(self, tile: Tile) -> (Result<(), TicTacToeError>, GameView) {
        self.apply(self.move_error(tile), tile)
    }

    /// The result and the new game when `player` asks to play `tile`.
    pub open spec fn play_outcome(self, player: Pubkey, tile: Tile) -> (
        Result<(), TicTacToeError>,
        GameView,
    ) {
        self.apply(self.play_error(player, tile), tile)
    }

    /// The result and the new game when the game is started with `players`.
    pub open spec fn start_outcome(self, players: Seq<Pubkey>) -> (
        Result<(), TicTacToeError>,
        GameView,
    ) {
        if self.turn != 0 {
            (Err(TicTacToeError::GameAlreadyStarted), self)
        } else {
            (Ok(()), GameView { players, turn: 1, ..self })
        }
    }
}

impl View for Game {
    type V = GameView;

    closed spec fn view(&self) -> GameView {
        GameView {
            players: self.players@,
            turn: self.turn as nat,
            board: Seq::new(3, |r: int| self.board[r]@),
            state: self.state,
        }
    }
}

/// The sign played on `turn` (turns count from 1).
pub fn sign_of(turn: u8) -> (s: Sign)
    requires
        turn >= 1,
    ensures
        s == sign_for_turn(turn as int),
{
    if (turn - 1) % 2 == 0 {
        Sign::X
    } else {
        Sign::O
    }
}

impl Game {
    pub open spec fn wf(&self) -> bool {
        self@.wf()
    }

    /// A game that has not started: no players yet, turn 0, an empty board.
    pub fn new() -> (g: Game)
        ensures
            g.wf(),
            g@.turn == 0,
            g@.state is Active,
            forall|r: int, c: int| 0 <= r < 3 && 0 <= c < 3 ==> (#[trigger] g@.board[r][c]) is None,
    {
        let nobody = Pubkey { bytes: [0u8; 32] };
        Game {
            players: [nobody, nobody],
            turn: 0,
            board: [[None, None, None], [None, None, None], [None, None, None]],
            state: GameState::Active,
        }
    }

    /// Starts the game with `players`, the first of whom moves first.
    /// Fails with `GameAlreadyStarted`, and changes nothing, once the game has started.
    pub fn start(&mut self, players: [Pubkey; 2]) -> (r: Result<(), TicTacToeError>)
        requires
            old(self).wf(),
        ensures
            final(self).wf(),
            (r, final(self)@) == old(self)@.start_outcome(players@),
            r is Err ==> *final(self) == *old(self),
    {
        if self.turn != 0 {
            return Err(TicTacToeError::GameAlreadyStarted);
        }
        self.players = players;
        self.turn = 1;
        Ok(())
    }

    /// The game still accepts moves.
    pub fn is_active(&self) -> (r: bool)
        ensures
            r == (self@.state is Active),
    {
        match self.state {
            GameState::Active => true,
            _ => false,
        }
    }

    /// 0 when the first player is to move, 1 when the second is.
    fn current_player_index(&self) -> (i: usize)
        requires
            self.turn >= 1,
        ensures
            i as int == self@.current_player_index(),
            i < 2,
    {
        ((self.turn - 1) % 2) as usize
    }

    /// The player whose turn it is.
    pub fn current_player(&self) -> (p: Pubkey)
        requires
            self@.turn >= 1,
        ensures
            p == self@.current_player(),
    {
        self.players[self.current_player_index()]
    }

    /// The current player puts their sign on `tile`.
    /// Fails, in this order of checks, with `GameAlreadyOver`, `TileOutOfBounds` or
    /// `TileAlreadySet`; a refused move changes nothing.
    pub fn play(&mut self, tile: &Tile) -> (r: Result<(), TicTacToeError>)
        requires
            old(self).wf(),
            old(self)@.turn >= 1,
        ensures
            final(self).wf(),
            (r, final(self)@) == old(self)@.move_outcome(*tile),
            r is Err ==> *final(self) == *old(self),
    {
        if !self.is_active() {
            return Err(TicTacToeError::GameAlreadyOver);
        }
        if tile.row > 2 || tile.column > 2 {
            return Err(TicTacToeError::TileOutOfBounds);
        }
        let row = tile.row as usize;
        let column = tile.column as usize;
        if self.board[row][column].is_some() {
            return Err(TicTacToeError::TileAlreadySet);
        }
        let ghost before = self@;
        self.board[row][column] = Some(sign_of(self.turn));
        assert(self@.board =~= before.after_move(row as int, column as int).board);
        self.update_state();
        if self.is_active() {
            self.turn = self.turn + 1;
        }
        proof {
            before.lemma_after_move_wf(row as int, column as int);
        }
        assert(self@ == before.after_move(row as int, column as int));
        Ok(())
    }

    /// The three cells of `trio` hold a sign, and the same one.
    fn is_winning_trio(&self, trio: [(usize, usize); 3]) -> (r: bool)
        requires
            forall|k: int| 0 <= k < 3 ==> (#[trigger] trio[k]).0 < 3 && trio[k].1 < 3,
        ensures
            r == trio_wins(
                self@.board,
                (trio[0].0 as int, trio[0].1 as int),
                (trio[1].0 as int, trio[1].1 as int),
                (trio[2].0 as int, trio[2].1 as int),
            ),
    {
        let first = trio[0];
        let second = trio[1];
        let third = trio[2];
        let a = self.board[first.0][first.1];
        let b = self.board[second.0][second.1];
        let c = self.board[third.0][third.1];
        match (a, b, c) {
            (Some(x), Some(y), Some(z)) => x == y && x == z,
            _ => false,
        }
    }

    /// Sets the state from the board after the current player's move: won by that
    /// player if a line is complete, a tie if the board is full, else unchanged.
    fn update_state(&mut self)
        requires
            old(self).turn >= 1,
        ensures
            final(self).players == old(self).players,
            final(self).turn == old(self).turn,
            final(self).board == old(self).board,
            final(self).state == if has_winning_line(old(self)@.board) {
                GameState::Won { winner: old(self)@.current_player() }
            } else if board_full(old(self)@.board) {
                GameState::Tie
            } else {
                old(self).state
            },
    {
        let mut i: usize = 0;
        while i <= 2
            invariant
                i <= 3,
                *self == *old(self),
                self.turn >= 1,
                forall|j: int| 0 <= j < i ==> !row_wins(self@.board, j) && !column_wins(self@.board, j),
            decreases 3 - i,
        {
            if self.is_winning_trio([(i, 0), (i, 1), (i, 2)]) {
                self.state = GameState::Won { winner: self.current_player() };
                return;
            }
            if self.is_winning_trio([(0, i), (1, i), (2, i)]) {
                self.state = GameState::Won { winner: self.current_player() };
                return;
            }
            i = i + 1;
        }
        if self.is_winning_trio([(0, 0), (1, 1), (2, 2)]) || self.is_winning_trio(
            [(0, 2), (1, 1), (2, 0)],
        ) {
            self.state = GameState::Won { winner: self.current_player() };
            return;
        }
        let mut row: usize = 0;
        while row <= 2
            invariant
                row <= 3,
                *self == *old(self),
                self.turn >= 1,
                !has_winning_line(self@.board),
                forall|r: int, c: int| 0 <= r < row && 0 <= c < 3 ==> (#[trigger] self@.board[r][c]) is Some,
            decreases 3 - row,
        {
            let mut column: usize = 0;
            while column <= 2
                invariant
                    row < 3,
                    column <= 3,
                    *self == *old(self),
                    !has_winning_line(self@.board),
                    forall|r: int, c: int| 0 <= r < row && 0 <= c < 3 ==> (#[trigger] self@.board[r][c]) is Some,
                    forall|c: int| 0 <= c < column ==> (#[trigger] self@.board[row as int][c]) is Some,
                decreases 3 - column,
            {
                if self.board[row][column].is_none() {
                    return;
                }
                column = column + 1;
            }
            row = row + 1;
        }
        self.state = GameState::Tie;
    }
}

impl Game {
    /// 0 before the game starts; afterwards the number of the move to be made next,
    /// or of the last move once the game is over.
    pub fn turn(&self) -> (t: u8)
        ensures
            t as nat == self@.turn,
    {
        self.turn
    }

    pub fn state(&self) -> (s: GameState)
        ensures
            s == self@.state,
    {
        self.state
    }

    /// The cells, by row and then by column.
    pub fn board(&self) -> (b: Board)
        ensures
            forall|r: int, c: int| 0 <= r < 3 && 0 <= c < 3 ==> #[trigger] b[r][c] == self@.board[r][c],
    {
        self.board
    }

    /// The two players, the one who moves first at index 0.
    pub fn players(&self) -> (p: [Pubkey; 2])
        ensures
            p@ == self@.players,
    {
        self.players
    }
}

/// A board is full exactly when nine of its cells hold a sign.
pub proof fn lemma_full_iff_nine(b: Seq<Seq<Option<Sign>>>)
    requires
        b.len() == 3,
        forall|r: int| 0 <= r < 3 ==> (#[trigger] b[r]).len() == 3,
    ensures
        board_full(b) <==> filled_count(b) == 9,
        0 <= filled_count(b) <= 9,
{
    if filled_count(b) == 9 {
        assert forall|r: int, c: int| 0 <= r < 3 && 0 <= c < 3 implies (#[trigger] b[r][c]) is Some by {
            assert(r == 0 || r == 1 || r == 2);
            assert(c == 0 || c == 1 || c == 2);
        }
    }
    if board_full(b) {
        assert(b[0][0] is Some && b[0][1] is Some && b[0][2] is Some);
        assert(b[1][0] is Some && b[1][1] is Some && b[1][2] is Some);
        assert(b[2][0] is Some && b[2][1] is Some && b[2][2] is Some);
    }
}

impl GameView {
    /// An accepted move keeps the invariant.
    pub proof fn lemma_after_move_wf(self, row: int, col: int)
        requires
            self.wf(),
            self.turn >= 1,
            self.state is Active,
            0 <= row < 3,
            0 <= col < 3,
            self.board[row][col] is None,
        ensures
            self.after_move(row, col).wf(),
    {
        let next = self.after_move(row, col);
        let b = next.board;
        assert forall|r: int| 0 <= r < 3 implies (#[trigger] b[r]).len() == 3 by {}
        assert(row_filled(b[row]) == row_filled(self.board[row]) + 1) by {
            assert(b[row][col] is Some);
            assert(col == 0 || col == 1 || col == 2);
        }
        assert(filled_count(b) == filled_count(self.board) + 1) by {
            assert(row == 0 || row == 1 || row == 2);
        }
        lemma_full_iff_nine(b);
    }
}

} // verus!
