use vstd::prelude::*;

verus! {

/// The ways in which `start` or `play` can reject a request.
#[derive(Clone, Copy, Debug, PartialEq, Eq, Structural)]
pub enum TicTacToeError {
    TileOutOfBounds,
    TileAlreadySet,
    GameAlreadyStarted,
    GameAlreadyOver,
    NotPlayersTurn,
}

} // verus!
