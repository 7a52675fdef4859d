//! Rule engine for a two-party pebble-removal game. Players alternately
//! remove a bounded number of pebbles from a shared pile; whoever removes
//! the last pebble wins. The engine covers initialization with randomized
//! first-mover selection, turn validation, the automated opponent's two
//! difficulty strategies, win detection, and restart semantics. Random
//! draws are injected as plain arguments, so every operation is a pure
//! function of its inputs.

pub mod engine;
pub mod game;
pub mod session;
pub mod strategy;
