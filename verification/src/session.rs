//! A container for the one live game. The runtime around the engine
//! keeps a single optional state; here that is an owned sum type, and
//! every operation on a missing game is rejected instead of aborting.

use vstd::prelude::*;
use crate::engine::{handle, init, spec_handle, spec_init};
use crate::game::{GameError, GameState, PebblesAction, PebblesEvent, PebblesInit, valid_config};

verus! {

/// The engine's one game slot: absent before the first initialization,
/// then the live state.
#[derive(Clone, Copy, PartialEq, Eq, Debug)]
pub enum GameSession {
    Uninitialized,
    Active(GameState),
}

impl GameSession {
    /// A session is well formed when the game it holds, if any, is.
    pub open spec fn wf(self) -> bool {
        match self {
            GameSession::Uninitialized => true,
            GameSession::Active(s) => s.wf(),
        }
    }

    /// A fresh slot with no game in it.
    pub fn new() -> (session: Self)
        ensures
            session == GameSession::Uninitialized,
    {
        GameSession::Uninitialized
    }

    /// Sets up a game from the given configuration, discarding whatever
    /// the slot held, and returns the opening counter-turn event when
    /// the random draws give the opponent the first move.
    pub fn init(
        &mut self,
        init_msg: PebblesInit,
        random_first: u32,
        random_strategy: u32,
    ) -> (event: Option<PebblesEvent>)
        requires
            valid_config(init_msg.pebbles_count, init_msg.max_pebbles_per_turn),
        ensures
            *final(self) == GameSession::Active(
                spec_init(init_msg, random_first, random_strategy).0,
            ),
            event == spec_init(init_msg, random_first, random_strategy).1,
            final(self).wf(),
    {
        let fresh = init(init_msg, random_first, random_strategy);
        *self = GameSession::Active(fresh.0);
        fresh.1
    }

    /// Applies one action to the live game, exactly as `handle` does on
    /// its state; with no game in the slot the action is rejected and
    /// the slot stays empty.
    pub fn handle(
        &mut self,
        action: PebblesAction,
        random_a: u32,
        random_b: u32,
    ) -> (r: Result<Option<PebblesEvent>, GameError>)
        requires
            old(self).wf(),
            action matches PebblesAction::Restart { pebbles_count, max_pebbles_per_turn, .. }
                ==> valid_config(pebbles_count, max_pebbles_per_turn),
        ensures
            (match *old(self) {
                GameSession::Uninitialized => r == Err::<Option<PebblesEvent>, GameError>(
                    GameError::NotInitialized,
                ) && *final(self) == *old(self),
                GameSession::Active(s) => match spec_handle(s, action, random_a, random_b) {
                    Ok(next) => r == Ok::<Option<PebblesEvent>, GameError>(next.1) && *final(self)
                        == GameSession::Active(next.0),
                    Err(err) => r == Err::<Option<PebblesEvent>, GameError>(err) && *final(self)
                        == *old(self),
                },
            }),
            final(self).wf(),
    {
        match self {
            GameSession::Uninitialized => Err(GameError::NotInitialized),
            GameSession::Active(state) => handle(state, action, random_a, random_b),
        }
    }

    /// An immutable snapshot of the live game, or a rejection when no
    /// game has been set up.
    pub fn state(&self) -> (r: Result<GameState, GameError>)
        ensures
            r == (match *self {
                GameSession::Uninitialized => Err::<GameState, GameError>(
                    GameError::NotInitialized,
                ),
                GameSession::Active(s) => Ok::<GameState, GameError>(s),
            }),
    {
        match self {
            GameSession::Uninitialized => Err(GameError::NotInitialized),
            GameSession::Active(state) => Ok(*state),
        }
    }
}

} // verus!
