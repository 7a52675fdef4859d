use pebbles_game::engine::{handle, init};
use pebbles_game::game::{
    DifficultyLevel, GameError, GameState, PebblesAction, PebblesEvent, PebblesInit, Player,
};
use pebbles_game::session::GameSession;

const EVEN_DRAW: u32 = 42;
const ODD_DRAW: u32 = 7;

fn fresh_user_first(
    pebbles_count: u32,
    max_pebbles_per_turn: u32,
    difficulty: DifficultyLevel,
) -> GameState {
    let (state, event) = init(
        PebblesInit { difficulty, pebbles_count, max_pebbles_per_turn },
        EVEN_DRAW,
        0,
    );
    assert_eq!(event, None);
    state
}

#[test]
fn init_with_even_draw_leaves_pile_untouched() {
    let state = fresh_user_first(15, 4, DifficultyLevel::Hard);
    assert_eq!(state.first_player, Player::User);
    assert_eq!(state.pebbles_count, 15);
    assert_eq!(state.max_pebbles_per_turn, 4);
    assert_eq!(state.pebbles_remaining, 15);
    assert_eq!(state.winner, None);
}

#[test]
fn init_with_odd_draw_lets_the_opponent_open() {
    // Hard opening on 14 with bound 4: 14 % 5 = 4 pebbles removed.
    let (state, event) = init(
        PebblesInit { difficulty: DifficultyLevel::Hard, pebbles_count: 14, max_pebbles_per_turn: 4 },
        ODD_DRAW,
        0,
    );
    assert_eq!(state.first_player, Player::Program);
    assert_eq!(state.pebbles_remaining, 10);
    assert_eq!(event, Some(PebblesEvent::CounterTurn(4)));
    assert_eq!(state.winner, None);
}

#[test]
fn init_easy_opening_uses_the_strategy_draw() {
    // Easy opening: 9 % 3 + 1 = 1 pebble removed.
    let (state, event) = init(
        PebblesInit { difficulty: DifficultyLevel::Easy, pebbles_count: 10, max_pebbles_per_turn: 3 },
        ODD_DRAW,
        9,
    );
    assert_eq!(state.pebbles_remaining, 9);
    assert_eq!(event, Some(PebblesEvent::CounterTurn(1)));
}

#[test]
fn init_opening_may_empty_the_pile_without_a_winner() {
    // The opening move exhausts a pile within the bound; win detection
    // is turn-driven, so no winner is recorded at initialization.
    let (state, event) = init(
        PebblesInit { difficulty: DifficultyLevel::Hard, pebbles_count: 3, max_pebbles_per_turn: 4 },
        ODD_DRAW,
        0,
    );
    assert_eq!(state.pebbles_remaining, 0);
    assert_eq!(event, Some(PebblesEvent::CounterTurn(3)));
    assert_eq!(state.winner, None);
}

#[test]
fn turn_on_pile_equal_to_bound_wins_for_the_user() {
    let mut state = fresh_user_first(4, 4, DifficultyLevel::Hard);
    let event = handle(&mut state, PebblesAction::Turn(4), 0, 0);
    assert_eq!(event, Ok(Some(PebblesEvent::Won(Player::User))));
    assert_eq!(state.pebbles_remaining, 0);
    assert_eq!(state.winner, Some(Player::User));
}

#[test]
fn illegal_turns_are_rejected_and_change_nothing() {
    let mut state = fresh_user_first(10, 4, DifficultyLevel::Hard);
    let before = state;

    let zero = handle(&mut state, PebblesAction::Turn(0), 0, 0);
    assert_eq!(zero, Err(GameError::InvalidMove));
    assert_eq!(state, before);

    let above_bound = handle(&mut state, PebblesAction::Turn(5), 0, 0);
    assert_eq!(above_bound, Err(GameError::InvalidMove));
    assert_eq!(state, before);

    // A pile smaller than the bound: a bound-legal turn can overshoot it.
    let mut small = fresh_user_first(3, 4, DifficultyLevel::Hard);
    let small_before = small;
    let overshoot = handle(&mut small, PebblesAction::Turn(4), 0, 0);
    assert_eq!(overshoot, Err(GameError::InsufficientPebbles));
    assert_eq!(small, small_before);
}

#[test]
fn turn_triggers_the_opponents_counter_move() {
    let mut state = fresh_user_first(15, 4, DifficultyLevel::Hard);
    let event = handle(&mut state, PebblesAction::Turn(1), 0, 0);
    assert_eq!(event, Ok(Some(PebblesEvent::CounterTurn(4))));
    assert_eq!(state.pebbles_remaining, 10);
    assert_eq!(state.winner, None);
}

#[test]
fn easy_counter_move_follows_the_draw() {
    // After the user takes 2 of 10, the Easy opponent draws 4:
    // 4 % 3 + 1 = 2 pebbles, leaving 6.
    let mut state = fresh_user_first(10, 3, DifficultyLevel::Easy);
    let event = handle(&mut state, PebblesAction::Turn(2), 4, 0);
    assert_eq!(event, Ok(Some(PebblesEvent::CounterTurn(2))));
    assert_eq!(state.pebbles_remaining, 6);

    // A different draw gives a different counter-move: 5 % 3 + 1 = 3.
    let mut other = fresh_user_first(10, 3, DifficultyLevel::Easy);
    let other_event = handle(&mut other, PebblesAction::Turn(2), 5, 0);
    assert_eq!(other_event, Ok(Some(PebblesEvent::CounterTurn(3))));
    assert_eq!(other.pebbles_remaining, 5);
}

#[test]
fn opponent_taking_the_last_pebble_wins() {
    // Pile 5, bound 4: the user takes 1, leaving 4; Hard takes 4 % 5 = 4
    // and empties the pile.
    let mut state = fresh_user_first(5, 4, DifficultyLevel::Hard);
    let event = handle(&mut state, PebblesAction::Turn(1), 0, 0);
    assert_eq!(event, Ok(Some(PebblesEvent::Won(Player::Program))));
    assert_eq!(state.pebbles_remaining, 0);
    assert_eq!(state.winner, Some(Player::Program));
}

#[test]
fn give_up_declares_the_opponent_winner() {
    let mut state = fresh_user_first(10, 4, DifficultyLevel::Easy);
    let event = handle(&mut state, PebblesAction::GiveUp, 0, 0);
    assert_eq!(event, Ok(Some(PebblesEvent::Won(Player::Program))));
    assert_eq!(state.winner, Some(Player::Program));
    assert_eq!(state.pebbles_remaining, 10);

    // A second concession re-affirms the same winner.
    let again = handle(&mut state, PebblesAction::GiveUp, 0, 0);
    assert_eq!(again, Ok(Some(PebblesEvent::Won(Player::Program))));
    assert_eq!(state.winner, Some(Player::Program));
}

#[test]
fn restart_discards_the_finished_game() {
    let mut state = fresh_user_first(10, 4, DifficultyLevel::Easy);
    handle(&mut state, PebblesAction::GiveUp, 0, 0).expect("concede");
    assert_eq!(state.winner, Some(Player::Program));

    let event = handle(
        &mut state,
        PebblesAction::Restart {
            difficulty: DifficultyLevel::Hard,
            pebbles_count: 20,
            max_pebbles_per_turn: 3,
        },
        EVEN_DRAW,
        0,
    );
    assert_eq!(event, Ok(None));
    assert_eq!(state.winner, None);
    assert_eq!(state.pebbles_count, 20);
    assert_eq!(state.max_pebbles_per_turn, 3);
    assert_eq!(state.pebbles_remaining, 20);
    assert_eq!(state.difficulty, DifficultyLevel::Hard);
    assert_eq!(state.first_player, Player::User);
}

#[test]
fn restart_with_odd_draw_includes_an_opening_move() {
    let mut state = fresh_user_first(10, 4, DifficultyLevel::Easy);
    let event = handle(
        &mut state,
        PebblesAction::Restart {
            difficulty: DifficultyLevel::Hard,
            pebbles_count: 14,
            max_pebbles_per_turn: 4,
        },
        ODD_DRAW,
        0,
    );
    assert_eq!(event, Ok(Some(PebblesEvent::CounterTurn(4))));
    assert_eq!(state.pebbles_remaining, 10);
    assert_eq!(state.first_player, Player::Program);
    assert_eq!(state.winner, None);
}

/// The scripted Hard game: pile 15, bound 4, the user moving first.
#[test]
fn hard_game_runs_to_the_scripted_end() {
    let mut state = fresh_user_first(15, 4, DifficultyLevel::Hard);

    let first = handle(&mut state, PebblesAction::Turn(1), 0, 0);
    assert_eq!(first, Ok(Some(PebblesEvent::CounterTurn(4))));
    assert_eq!(state.pebbles_remaining, 10);

    let rejected = handle(&mut state, PebblesAction::Turn(5), 0, 0);
    assert_eq!(rejected, Err(GameError::InvalidMove));
    assert_eq!(state.pebbles_remaining, 10);

    let second = handle(&mut state, PebblesAction::Turn(4), 0, 0);
    assert_eq!(second, Ok(Some(PebblesEvent::CounterTurn(1))));
    assert_eq!(state.pebbles_remaining, 5);

    // Whatever the user takes from 5, the opponent empties the pile.
    let last = handle(&mut state, PebblesAction::Turn(1), 0, 0);
    assert_eq!(last, Ok(Some(PebblesEvent::Won(Player::Program))));
    assert_eq!(state.pebbles_remaining, 0);
    assert_eq!(state.winner, Some(Player::Program));
}

#[test]
fn session_rejects_everything_before_initialization() {
    let mut session = GameSession::new();
    assert_eq!(session.state(), Err(GameError::NotInitialized));
    let event = session.handle(PebblesAction::Turn(1), 0, 0);
    assert_eq!(event, Err(GameError::NotInitialized));
    let concede = session.handle(PebblesAction::GiveUp, 0, 0);
    assert_eq!(concede, Err(GameError::NotInitialized));
}

#[test]
fn session_plays_a_game_after_initialization() {
    let mut session = GameSession::new();
    let opening = session.init(
        PebblesInit { difficulty: DifficultyLevel::Hard, pebbles_count: 15, max_pebbles_per_turn: 4 },
        EVEN_DRAW,
        0,
    );
    assert_eq!(opening, None);

    let snapshot = session.state().expect("a game is live");
    assert_eq!(snapshot.pebbles_remaining, 15);

    let event = session.handle(PebblesAction::Turn(1), 0, 0);
    assert_eq!(event, Ok(Some(PebblesEvent::CounterTurn(4))));
    let after = session.state().expect("a game is live");
    assert_eq!(after.pebbles_remaining, 10);

    // A rejected action leaves the snapshot untouched.
    let rejected = session.handle(PebblesAction::Turn(0), 0, 0);
    assert_eq!(rejected, Err(GameError::InvalidMove));
    assert_eq!(session.state(), Ok(after));
}

#[test]
fn session_init_overwrites_a_live_game() {
    let mut session = GameSession::new();
    session.init(
        PebblesInit { difficulty: DifficultyLevel::Easy, pebbles_count: 9, max_pebbles_per_turn: 2 },
        EVEN_DRAW,
        0,
    );
    session.handle(PebblesAction::GiveUp, 0, 0).expect("concede");
    session.init(
        PebblesInit { difficulty: DifficultyLevel::Hard, pebbles_count: 12, max_pebbles_per_turn: 3 },
        EVEN_DRAW,
        0,
    );
    let snapshot = session.state().expect("a game is live");
    assert_eq!(snapshot.winner, None);
    assert_eq!(snapshot.pebbles_remaining, 12);
    assert_eq!(snapshot.difficulty, DifficultyLevel::Hard);
}
