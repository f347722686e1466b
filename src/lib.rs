//! The rules of tic-tac-toe as a verified state machine: starting a game between two
//! players, validating and applying moves in turn, and deciding win, tie or play on.

pub mod errors;
pub mod game;
pub mod instructions;
pub mod laws;
