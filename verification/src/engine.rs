//! The state machine: initialization, turn application, concession and
//! restart. Each transition is specified by a spec function of the prior
//! state, the action and the random draws consumed, so the executable
//! functions are pinned to one deterministic outcome.

use vstd::prelude::*;
use crate::game::{
    DifficultyLevel, GameError, GameState, PebblesAction, PebblesEvent, PebblesInit, Player,
    valid_config,
};
use crate::strategy::{
    get_contract_pebbles_taken, get_first_player, lemma_hard_move_leaves_losing_residue,
    lemma_multiple_pile_always_breaks, lemma_strategy_bounds, spec_first_player, spec_strategy,
};

verus! {

/// How many pebbles the automated opponent removes as an opening move:
/// its strategy's pick when it moves first, nothing otherwise.
pub open spec fn spec_opening_take(
    pebbles_count: u32,
    max_pebbles_per_turn: u32,
    first_player: Player,
    difficulty: DifficultyLevel,
    random: u32,
) -> int {
    if first_player == Player::Program {
        spec_strategy(pebbles_count, max_pebbles_per_turn, difficulty, random)
    } else {
        0
    }
}

/// The state and event a fresh game starts with: `random_first` decides
/// the first mover, and when the opponent opens, `random_strategy`
/// drives its Easy pick. The winner is left unset even when the opening
/// move empties the pile, matching the turn-driven win detection.
pub open spec fn spec_init(
    init_msg: PebblesInit,
    random_first: u32,
    random_strategy: u32,
) -> (GameState, Option<PebblesEvent>) {
    let first_player = spec_first_player(random_first);
    let take = spec_opening_take(
        init_msg.pebbles_count,
        init_msg.max_pebbles_per_turn,
        first_player,
        init_msg.difficulty,
        random_strategy,
    );
    let state = GameState {
        pebbles_count: init_msg.pebbles_count,
        max_pebbles_per_turn: init_msg.max_pebbles_per_turn,
        pebbles_remaining: (init_msg.pebbles_count - take) as u32,
        difficulty: init_msg.difficulty,
        first_player: first_player,
        winner: None,
    };
    let event = if first_player == Player::Program {
        Some(PebblesEvent::CounterTurn(take as u32))
    } else {
        None
    };
    (state, event)
}

/// Outcome of `Turn(amount)` on state `s`: the rejection it fails with,
/// or the successor state paired with the single event it emits.
/// `random` drives the opponent's Easy counter-move.
pub open spec fn spec_turn(s: GameState, amount: u32, random: u32) -> Result<
    (GameState, PebblesEvent),
    GameError,
> {
    if amount == 0 || amount > s.max_pebbles_per_turn {
        Err(GameError::InvalidMove)
    } else if amount > s.pebbles_remaining {
        Err(GameError::InsufficientPebbles)
    } else {
        let after_user = (s.pebbles_remaining - amount) as u32;
        if after_user == 0 {
            Ok((
                GameState { pebbles_remaining: 0, winner: Some(Player::User), ..s },
                PebblesEvent::Won(Player::User),
            ))
        } else {
            let take = spec_strategy(after_user, s.max_pebbles_per_turn, s.difficulty, random);
            let after_program = (after_user - take) as u32;
            if after_program == 0 {
                Ok((
                    GameState { pebbles_remaining: 0, winner: Some(Player::Program), ..s },
                    PebblesEvent::Won(Player::Program),
                ))
            } else {
                Ok((
                    GameState { pebbles_remaining: after_program, ..s },
                    PebblesEvent::CounterTurn(take as u32),
                ))
            }
        }
    }
}

/// Outcome of any action on state `s`. A turn consumes `random_a` at
/// most; a restart decides its first mover from `random_a` and an Easy
/// opening from `random_b`; a concession consumes no draw.
pub open spec fn spec_handle(
    s: GameState,
    action: PebblesAction,
    random_a: u32,
    random_b: u32,
) -> Result<(GameState, Option<PebblesEvent>), GameError> {
    match action {
        PebblesAction::Turn(amount) => match spec_turn(s, amount, random_a) {
            Ok(next) => Ok((next.0, Some(next.1))),
            Err(err) => Err(err),
        },
        PebblesAction::GiveUp => Ok((
            GameState { winner: Some(Player::Program), ..s },
            Some(PebblesEvent::Won(Player::Program)),
        )),
        PebblesAction::Restart { difficulty, pebbles_count, max_pebbles_per_turn } => {
            let fresh = spec_init(
                PebblesInit { difficulty, pebbles_count, max_pebbles_per_turn },
                random_a,
                random_b,
            );
            Ok((fresh.0, fresh.1))
        },
    }
}

/// Law: every transition that succeeds yields a well-formed state: the
/// pile stays between zero and the configured count, and the user holds
/// the win only over an empty pile.
pub proof fn lemma_handle_preserves_wf(
    s: GameState,
    action: PebblesAction,
    random_a: u32,
    random_b: u32,
)
    requires
        s.wf(),
        action matches PebblesAction::Restart { pebbles_count, max_pebbles_per_turn, .. }
            ==> valid_config(pebbles_count, max_pebbles_per_turn),
    ensures
        spec_handle(s, action, random_a, random_b) matches Ok(next) ==> next.0.wf(),
{
    match action {
        PebblesAction::Turn(amount) => {
            if 1 <= amount <= s.max_pebbles_per_turn && amount <= s.pebbles_remaining {
                let after_user = (s.pebbles_remaining - amount) as u32;
                if after_user != 0 {
                    lemma_strategy_bounds(
                        after_user,
                        s.max_pebbles_per_turn,
                        s.difficulty,
                        random_a,
                    );
                }
            }
        },
        PebblesAction::GiveUp => {},
        PebblesAction::Restart { difficulty, pebbles_count, max_pebbles_per_turn } => {
            let first = spec_first_player(random_a);
            if first == Player::Program {
                lemma_strategy_bounds(pebbles_count, max_pebbles_per_turn, difficulty, random_b);
            }
        },
    }
}

/// Law: the winner is set only when the pile empties during a turn or on
/// a concession, and once set it is never cleared again except by a
/// restart; a rejected action changes nothing at all.
pub proof fn lemma_winner_lifecycle(
    s: GameState,
    action: PebblesAction,
    random_a: u32,
    random_b: u32,
)
    ensures
        spec_handle(s, action, random_a, random_b) matches Ok(next) ==> {
            &&& (s.winner is None && next.0.winner is Some ==> action is GiveUp
                || next.0.pebbles_remaining == 0)
            &&& (s.winner is Some && !(action is Restart) ==> next.0.winner is Some)
        },
{
}

/// Law: the engine is deterministic given its random draws: an equal
/// state, action and pair of draws yield the very same outcome, state
/// and event alike.
pub proof fn lemma_handle_deterministic(
    s1: GameState,
    s2: GameState,
    action1: PebblesAction,
    action2: PebblesAction,
    first1: u32,
    first2: u32,
    second1: u32,
    second2: u32,
)
    requires
        s1 == s2,
        action1 == action2,
        first1 == first2,
        second1 == second2,
    ensures
        spec_handle(s1, action1, first1, second1) == spec_handle(s2, action2, first2, second2),
{
}

/// Law: initialization is deterministic given its random draws: an equal
/// configuration and pair of draws yield the very same fresh game and
/// opening event.
pub proof fn lemma_init_deterministic(
    msg1: PebblesInit,
    msg2: PebblesInit,
    first1: u32,
    first2: u32,
    second1: u32,
    second2: u32,
)
    requires
        msg1 == msg2,
        first1 == first2,
        second1 == second2,
    ensures
        spec_init(msg1, first1, second1) == spec_init(msg2, first2, second2),
{
}

/// Law: a restart resets the game fully. Its outcome does not depend on
/// the prior state in any way, the winner is cleared, and the pile holds
/// the new count less the opponent's automatic opening move, if any.
pub proof fn lemma_restart_resets(
    s1: GameState,
    s2: GameState,
    difficulty: DifficultyLevel,
    pebbles_count: u32,
    max_pebbles_per_turn: u32,
    random_a: u32,
    random_b: u32,
)
    requires
        valid_config(pebbles_count, max_pebbles_per_turn),
    ensures
        ({
            let action = PebblesAction::Restart { difficulty, pebbles_count, max_pebbles_per_turn };
            let first = spec_first_player(random_a);
            &&& spec_handle(s1, action, random_a, random_b) == spec_handle(
                s2,
                action,
                random_a,
                random_b,
            )
            &&& spec_handle(s1, action, random_a, random_b) matches Ok(next) && {
                &&& next.0.winner is None
                &&& next.0.pebbles_count == pebbles_count
                &&& next.0.max_pebbles_per_turn == max_pebbles_per_turn
                &&& next.0.difficulty == difficulty
                &&& next.0.first_player == first
                &&& next.0.pebbles_remaining as int == pebbles_count - spec_opening_take(
                    pebbles_count,
                    max_pebbles_per_turn,
                    first,
                    difficulty,
                    random_b,
                )
            }
        }),
{
    let first = spec_first_player(random_a);
    if first == Player::Program {
        lemma_strategy_bounds(pebbles_count, max_pebbles_per_turn, difficulty, random_b);
    }
}

/// Law: under Hard difficulty a party that must move on a pile that is a
/// positive multiple of `max_pebbles_per_turn + 1` cannot win this turn,
/// and after the opponent's counter-move faces such a pile again or has
/// already lost — so from such positions the opponent never loses.
pub proof fn lemma_hard_user_stays_losing(s: GameState, amount: u32, random: u32)
    requires
        s.wf(),
        s.difficulty == DifficultyLevel::Hard,
        1 <= s.pebbles_remaining,
        s.pebbles_remaining as int % (s.max_pebbles_per_turn as int + 1) == 0,
    ensures
        spec_turn(s, amount, random) matches Ok(next) ==> {
            &&& next.1 != PebblesEvent::Won(Player::User)
            &&& next.0.pebbles_remaining as int % (s.max_pebbles_per_turn as int + 1) == 0
        },
{
    let modulus = s.max_pebbles_per_turn as int + 1;
    let pile = s.pebbles_remaining;
    if 1 <= amount <= s.max_pebbles_per_turn && amount <= pile {
        if (pile as int) < modulus {
            vstd::arithmetic::div_mod::lemma_small_mod(pile as nat, modulus as nat);
        }
        let after_user = (pile - amount) as u32;
        lemma_multiple_pile_always_breaks(pile, s.max_pebbles_per_turn, amount);
        lemma_strategy_bounds(after_user, s.max_pebbles_per_turn, s.difficulty, random);
        lemma_hard_move_leaves_losing_residue(after_user, s.max_pebbles_per_turn, random);
    }
}

/// The events of a run of turns against the engine: each accepted turn
/// appends the one event it emits and advances the state; a rejected
/// turn appends nothing and leaves the state alone.
pub open spec fn spec_turn_events(s: GameState, amounts: Seq<u32>, randoms: Seq<u32>) -> Seq<
    PebblesEvent,
>
    decreases amounts.len(),
{
    if amounts.len() == 0 {
        Seq::empty()
    } else {
        match spec_turn(s, amounts[0], randoms[0]) {
            Ok(next) => seq![next.1] + spec_turn_events(
                next.0,
                amounts.drop_first(),
                randoms.drop_first(),
            ),
            Err(_) => spec_turn_events(s, amounts.drop_first(), randoms.drop_first()),
        }
    }
}

/// Law: under Hard difficulty, once the user must move on a pile that is
/// a multiple of `max_pebbles_per_turn + 1`, no run of turns — however
/// long, and whatever the amounts and the draws — ever announces the
/// user as winner: the opponent never loses from such positions.
pub proof fn lemma_hard_never_loses(s: GameState, amounts: Seq<u32>, randoms: Seq<u32>)
    requires
        s.wf(),
        s.difficulty == DifficultyLevel::Hard,
        s.pebbles_remaining as int % (s.max_pebbles_per_turn as int + 1) == 0,
        amounts.len() == randoms.len(),
    ensures
        forall|i: int|
            0 <= i < spec_turn_events(s, amounts, randoms).len() ==> spec_turn_events(
                s,
                amounts,
                randoms,
            )[i] != PebblesEvent::Won(Player::User),
    decreases amounts.len(),
{
    if amounts.len() > 0 {
        match spec_turn(s, amounts[0], randoms[0]) {
            Ok(next) => {
                lemma_hard_user_stays_losing(s, amounts[0], randoms[0]);
                lemma_handle_preserves_wf(s, PebblesAction::Turn(amounts[0]), randoms[0], 0);
                lemma_hard_never_loses(next.0, amounts.drop_first(), randoms.drop_first());
                let events = spec_turn_events(s, amounts, randoms);
                let rest = spec_turn_events(next.0, amounts.drop_first(), randoms.drop_first());
                assert(events == seq![next.1] + rest);
                assert forall|i: int|
                    0 <= i < events.len() implies events[i] != PebblesEvent::Won(
                    Player::User,
                ) by {
                    if i > 0 {
                        assert(events[i] == rest[i - 1]);
                    }
                }
            },
            Err(_) => {
                lemma_hard_never_loses(s, amounts.drop_first(), randoms.drop_first());
            },
        }
    }
}

/// The pile a game starts with, after any automatic opening move by the
/// opponent, together with the counter-turn event such a move emits.
pub fn get_init_pebbles_remain(
    pebbles_count: u32,
    max_pebbles_per_turn: u32,
    first_player: Player,
    difficulty: DifficultyLevel,
    random: u32,
) -> (r: (u32, Option<PebblesEvent>))
    requires
        valid_config(pebbles_count, max_pebbles_per_turn),
    ensures
        r.0 as int == pebbles_count - spec_opening_take(
            pebbles_count,
            max_pebbles_per_turn,
            first_player,
            difficulty,
            random,
        ),
        r.1 == (if first_player == Player::Program {
            Some(
                PebblesEvent::CounterTurn(
                    spec_opening_take(
                        pebbles_count,
                        max_pebbles_per_turn,
                        first_player,
                        difficulty,
                        random,
                    ) as u32,
                ),
            )
        } else {
            None::<PebblesEvent>
        }),
{
    match first_player {
        Player::Program => {
            let take = get_contract_pebbles_taken(
                pebbles_count,
                max_pebbles_per_turn,
                difficulty,
                random,
            );
            (pebbles_count - take, Some(PebblesEvent::CounterTurn(take)))
        },
        Player::User => (pebbles_count, None),
    }
}

/// Builds the state of a fresh game. `random_first` decides the first
/// mover; `random_strategy` drives the opponent's Easy opening pick when
/// it moves first, in which case the counter-turn event is returned too.
pub fn init(init_msg: PebblesInit, random_first: u32, random_strategy: u32) -> (r: (
    GameState,
    Option<PebblesEvent>,
))
    requires
        valid_config(init_msg.pebbles_count, init_msg.max_pebbles_per_turn),
    ensures
        r == spec_init(init_msg, random_first, random_strategy),
        r.0.wf(),
{
    let first_player = get_first_player(random_first);
    let opening = get_init_pebbles_remain(
        init_msg.pebbles_count,
        init_msg.max_pebbles_per_turn,
        first_player,
        init_msg.difficulty,
        random_strategy,
    );
    let state = GameState {
        pebbles_count: init_msg.pebbles_count,
        max_pebbles_per_turn: init_msg.max_pebbles_per_turn,
        pebbles_remaining: opening.0,
        difficulty: init_msg.difficulty,
        first_player: first_player,
        winner: None,
    };
    (state, opening.1)
}

/// Applies one action. On success the state is replaced by the successor
/// that `spec_handle` names and the single event (or, for a restart by a
/// user-first draw, no event) is returned; a rejected action returns its
/// error and leaves the state exactly as it was.
pub fn handle(
    state: &mut GameState,
    action: PebblesAction,
    random_a: u32,
    random_b: u32,
) -> (r: Result<Option<PebblesEvent>, GameError>)
    requires
        old(state).wf(),
        action matches PebblesAction::Restart { pebbles_count, max_pebbles_per_turn, .. }
            ==> valid_config(pebbles_count, max_pebbles_per_turn),
    ensures
        (match spec_handle(*old(state), action, random_a, random_b) {
            Ok(next) => r == Ok::<Option<PebblesEvent>, GameError>(next.1) && *final(state)
                == next.0,
            Err(err) => r == Err::<Option<PebblesEvent>, GameError>(err) && *final(state) == *old(
                state,
            ),
        }),
        final(state).wf(),
{
    match action {
        PebblesAction::Turn(amount) => {
            if amount == 0 || amount > state.max_pebbles_per_turn {
                return Err(GameError::InvalidMove);
            }
            if amount > state.pebbles_remaining {
                return Err(GameError::InsufficientPebbles);
            }
            state.pebbles_remaining = state.pebbles_remaining - amount;
            if state.pebbles_remaining == 0 {
                state.winner = Some(Player::User);
                Ok(Some(PebblesEvent::Won(Player::User)))
            } else {
                let take = get_contract_pebbles_taken(
                    state.pebbles_remaining,
                    state.max_pebbles_per_turn,
                    state.difficulty,
                    random_a,
                );
                state.pebbles_remaining = state.pebbles_remaining - take;
                if state.pebbles_remaining == 0 {
                    state.winner = Some(Player::Program);
                    Ok(Some(PebblesEvent::Won(Player::Program)))
                } else {
                    Ok(Some(PebblesEvent::CounterTurn(take)))
                }
            }
        },
        PebblesAction::GiveUp => {
            state.winner = Some(Player::Program);
            Ok(Some(PebblesEvent::Won(Player::Program)))
        },
        PebblesAction::Restart { difficulty, pebbles_count, max_pebbles_per_turn } => {
            let fresh = init(
                PebblesInit { difficulty, pebbles_count, max_pebbles_per_turn },
                random_a,
                random_b,
            );
            *state = fresh.0;
            Ok(fresh.1)
        },
    }
}

} // verus!
