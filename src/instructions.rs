use vstd::prelude::*;

use crate::errors::TicTacToeError;
use crate::game::{Game, Pubkey, Tile};

verus! {

/// What a request to set up a game carries: the game and the player who sets it up.
pub struct SetupGame {
    pub game: Game,
    pub player_one: Pubkey,
}

/// What a request to make a move carries: the game and the player who asks to move.
pub struct Play {
    pub game: Game,
    pub player: Pubkey,
}

/// Starts the game with the player who set it up moving first and `player_two` second.
pub fn setup_game(ctx: &mut SetupGame, player_two: Pubkey) -> (r: Result<(), TicTacToeError>)
    requires
        old(ctx).game.wf(),
    ensures
        final(ctx).game.wf(),
        final(ctx).player_one == old(ctx).player_one,
        (r, final(ctx).game@) == old(ctx).game@.start_outcome(seq![old(ctx).player_one, player_two]),
        r is Err ==> final(ctx).game == old(ctx).game,
{
    let players = [ctx.player_one, player_two];
    proof {
        assert(players@ =~= seq![ctx.player_one, player_two]);
    }
    ctx.game.start(players)
}

/// The requesting player puts their sign on `tile`. Fails with `NotPlayersTurn` when the
/// game has not started or another player is to move; otherwise as `Game::play`.
/// A refused move changes nothing.
pub fn play(ctx: &mut Play, tile: Tile) -> (r: Result<(), TicTacToeError>)
    requires
        old(ctx).game.wf(),
    ensures
        final(ctx).game.wf(),
        final(ctx).player == old(ctx).player,
        (r, final(ctx).game@) == old(ctx).game@.play_outcome(old(ctx).player, tile),
        r is Err ==> final(ctx).game == old(ctx).game,
{
    if ctx.game.turn() == 0 || ctx.game.current_player() != ctx.player {
        return Err(TicTacToeError::NotPlayersTurn);
    }
    ctx.game.play(&tile)
}

} // verus!
