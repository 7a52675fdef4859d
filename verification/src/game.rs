//! Data model of the pebbles game: the parties, the difficulty levels,
//! the live game state, and the payloads that drive and report a game.

use vstd::prelude::*;

verus! {

/// A party to the game: the human player or the automated opponent.
#[derive(Clone, Copy, PartialEq, Eq, Structural, Debug)]
pub enum Player {
    User,
    Program,
}

/// Selects the automated opponent's strategy: a random pick within
/// bounds (Easy) or the game-theoretically optimal move (Hard).
#[derive(Clone, Copy, PartialEq, Eq, Structural, Debug)]
pub enum DifficultyLevel {
    Easy,
    Hard,
}

/// Configuration of a fresh game: total pile size, per-turn bound, and
/// the opponent's difficulty.
#[derive(Clone, Copy, PartialEq, Eq, Debug)]
pub struct PebblesInit {
    pub difficulty: DifficultyLevel,
    pub pebbles_count: u32,
    pub max_pebbles_per_turn: u32,
}

/// An action presented to a running game: remove pebbles, concede, or
/// start over with a new configuration.
#[derive(Clone, Copy, PartialEq, Eq, Debug)]
pub enum PebblesAction {
    Turn(u32),
    GiveUp,
    Restart { difficulty: DifficultyLevel, pebbles_count: u32, max_pebbles_per_turn: u32 },
}

/// The single event a successful action produces: the opponent's
/// counter-move, or the announcement of a winner.
#[derive(Clone, Copy, PartialEq, Eq, Debug)]
pub enum PebblesEvent {
    CounterTurn(u32),
    Won(Player),
}

/// Why an action was rejected. A rejected action never changes the game
/// state and never produces an event.
#[derive(Clone, Copy, PartialEq, Eq, Structural, Debug)]
pub enum GameError {
    /// An action or a state query arrived before any game was set up.
    NotInitialized,
    /// `Turn(amount)` with `amount == 0` or `amount` above the per-turn bound.
    InvalidMove,
    /// `Turn(amount)` with `amount` above the pebbles still in the pile.
    InsufficientPebbles,
}

/// A game's configuration is workable when the pile and the per-turn
/// bound are both positive. The bound is also kept below `u32::MAX` so
/// that the optimal strategy's modulus `max_pebbles_per_turn + 1` fits
/// in a machine word.
pub open spec fn valid_config(pebbles_count: u32, max_pebbles_per_turn: u32) -> bool {
    &&& 1 <= pebbles_count
    &&& 1 <= max_pebbles_per_turn
    &&& max_pebbles_per_turn < u32::MAX
}

/// The authoritative record of one game in progress.
#[derive(Clone, Copy, PartialEq, Eq, Debug)]
pub struct GameState {
    pub pebbles_count: u32,
    pub max_pebbles_per_turn: u32,
    pub pebbles_remaining: u32,
    pub difficulty: DifficultyLevel,
    /// The party designated to move first; recorded for reporting only.
    pub first_player: Player,
    /// `None` while the game is in progress; set when the pile reaches
    /// zero during a turn or when the user concedes.
    pub winner: Option<Player>,
}

impl GameState {
    /// Well-formedness, established at initialization and preserved by
    /// every transition: the configuration is workable, the pile never
    /// exceeds its starting size, and the user is recorded as winner
    /// only once the pile is empty.
    pub open spec fn wf(self) -> bool {
        &&& valid_config(self.pebbles_count, self.max_pebbles_per_turn)
        &&& self.pebbles_remaining <= self.pebbles_count
        &&& (self.winner == Some(Player::User) ==> self.pebbles_remaining == 0)
    }
}

} // verus!
