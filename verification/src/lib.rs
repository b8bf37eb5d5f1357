//! Tic-tac-toe for two players on one board: the rules of the game and the
//! dialogue of a session, as functions from plain values to plain values.

pub mod board;
pub mod input;
pub mod lemmas;
pub mod render;
pub mod session;
