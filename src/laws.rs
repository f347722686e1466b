use vstd::prelude::*;

use crate::errors::TicTacToeError;
use crate::game::{filled_count, tile_in_bounds, GameView, Pubkey, Tile};

verus! {

/// No move is accepted before the game starts: every request is refused with
/// `NotPlayersTurn` and leaves the game as it was.
pub proof fn unstarted_game_refuses_moves(g: GameView, player: Pubkey, tile: Tile)
    requires
        g.wf(),
        g.turn == 0,
    ensures
        g.play_outcome(player, tile) == (Err::<(), TicTacToeError>(TicTacToeError::NotPlayersTurn), g),
{
}

/// A game starts once: starting an unstarted game succeeds with turn 1, an active state and
/// an empty board; any later start, whatever the players, fails with `GameAlreadyStarted`
/// and changes nothing.
pub proof fn start_is_once(g: GameView, first: Seq<Pubkey>, second: Seq<Pubkey>)
    requires
        g.wf(),
        first.len() == 2,
    ensures
        g.start_outcome(first).0 is Ok <==> g.turn == 0,
        g.start_outcome(first).0 is Ok ==> {
            let s = g.start_outcome(first).1;
            &&& s.wf()
            &&& s.turn == 1
            &&& s.state is Active
            &&& filled_count(s.board) == 0
            &&& s.players == first
        },
        g.start_outcome(first).1.start_outcome(second) == (
            Err::<(), TicTacToeError>(TicTacToeError::GameAlreadyStarted),
            g.start_outcome(first).1,
        ),
{
}

/// A move on a tile off the board, by the player whose turn it is in a game that goes on,
/// is refused with `TileOutOfBounds` and changes nothing.
pub proof fn off_board_tile_refused(g: GameView, player: Pubkey, tile: Tile)
    requires
        g.wf(),
        g.turn >= 1,
        g.state is Active,
        player == g.current_player(),
        !tile_in_bounds(tile),
    ensures
        g.play_outcome(player, tile) == (Err::<(), TicTacToeError>(TicTacToeError::TileOutOfBounds), g),
{
}

/// Once a game is won or tied every move is refused, with `GameAlreadyOver` when the
/// requester is the player whose turn it would be, and the game does not change.
pub proof fn finished_game_refuses_moves(g: GameView, player: Pubkey, tile: Tile)
    requires
        g.wf(),
        !(g.state is Active),
    ensures
        g.play_outcome(player, tile).0 is Err,
        g.play_outcome(player, tile).1 == g,
        player == g.current_player() ==> g.play_outcome(player, tile).0 == Err::<
            (),
            TicTacToeError,
        >(TicTacToeError::GameAlreadyOver),
{
}

/// An accepted move keeps the invariant; it advances the turn by one exactly when the game
/// goes on, and otherwise leaves the turn as it was and ends the game, so that no later
/// move is accepted.
pub proof fn accepted_move_advances_turn(
    g: GameView,
    player: Pubkey,
    tile: Tile,
    later_player: Pubkey,
    later_tile: Tile,
)
    requires
        g.wf(),
        g.play_outcome(player, tile).0 is Ok,
    ensures
        ({
            let n = g.play_outcome(player, tile).1;
            &&& n.wf()
            &&& n.turn == g.turn + 1 <==> n.state is Active
            &&& !(n.state is Active) ==> {
                &&& n.turn == g.turn
                &&& n.play_outcome(later_player, later_tile).0 is Err
                &&& later_player == n.current_player() ==> n.play_outcome(later_player, later_tile).0
                    == Err::<(), TicTacToeError>(TicTacToeError::GameAlreadyOver)
            }
        }),
{
    g.lemma_after_move_wf(tile.row as int, tile.column as int);
    let n = g.play_outcome(player, tile).1;
    if !(n.state is Active) {
        finished_game_refuses_moves(n, later_player, later_tile);
    }
}

/// A refused move changes nothing, so asking for it again is refused with the same error
/// and again changes nothing.
pub proof fn refusal_repeats(g: GameView, player: Pubkey, tile: Tile)
    requires
        g.play_outcome(player, tile).0 is Err,
    ensures
        g.play_outcome(player, tile).1 == g,
        g.play_outcome(player, tile).1.play_outcome(player, tile) == g.play_outcome(player, tile),
{
}

/// A cell that holds a sign keeps it whatever move is asked for, and the turn never goes back.
pub proof fn occupied_cells_stay(g: GameView, player: Pubkey, tile: Tile, r: int, c: int)
    requires
        g.wf(),
        0 <= r < 3,
        0 <= c < 3,
        g.board[r][c] is Some,
    ensures
        g.play_outcome(player, tile).1.board[r][c] == g.board[r][c],
        g.play_outcome(player, tile).1.turn >= g.turn,
{
}

} // verus!
