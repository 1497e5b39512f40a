//! The game state machine: one live game, one command applied per call.
//!
//! Randomness is supplied by the caller as plain `u32` draws (the host owns
//! the entropy source); every contract says exactly what each draw decides.

use vstd::prelude::*;
use crate::strategy::{choose_move, chosen_move};
use crate::types::{
    DifficultyLevel,
    GameError,
    PebblesAction,
    PebblesEvent,
    PebblesInit,
    Player,
    opposite,
};

verus! {

/// The full state of one game.
#[derive(Clone, Copy, Debug)]
pub struct GameState {
    /// The pile size the game started with.
    pub pebbles_count: u32,
    /// The most pebbles one turn may remove.
    pub max_pebbles_per_turn: u32,
    /// The pebbles still on the pile.
    pub pebbles_remaining: u32,
    /// The automated opponent's move-selection policy.
    pub difficulty: DifficultyLevel,
    /// Who moved first in this game.
    pub first_player: Player,
    /// Set once the pile is exhausted or the human gives up.
    pub winner: Option<Player>,
}

/// A start or restart is accepted only with a non-empty pile and a positive
/// turn cap.
pub open spec fn config_valid(pebbles_count: u32, max_pebbles_per_turn: u32) -> bool {
    pebbles_count >= 1 && max_pebbles_per_turn >= 1
}

/// The winner recorded when the pile empties: always the side opposite the
/// recorded first player, whoever actually removed the last pebble.
pub open spec fn spec_winner(first_player: Player, remaining: u32) -> Option<Player> {
    if remaining == 0 {
        Some(opposite(first_player))
    } else {
        None
    }
}

/// How one random draw picks the first player: even draws give the human
/// the first move, odd draws the automated opponent.
pub open spec fn spec_first_player(rand: u32) -> Player {
    if rand % 2 == 0 {
        Player::User
    } else {
        Player::Program
    }
}

/// How many pebbles an automated move actually removes: the chosen move,
/// clamped to the pile so that the pile never goes negative. Only an Easy
/// move can exceed the pile; a Hard move never does.
pub open spec fn spec_removed(
    difficulty: DifficultyLevel,
    max_per_turn: u32,
    remaining: u32,
    rand: u32,
) -> int {
    let chosen = chosen_move(difficulty, max_per_turn, remaining, rand);
    if chosen <= remaining {
        chosen
    } else {
        remaining as int
    }
}

/// The state after one automated move on a running game.
pub open spec fn spec_after_program_move(s: GameState, rand: u32) -> GameState {
    let removed = spec_removed(s.difficulty, s.max_pebbles_per_turn, s.pebbles_remaining, rand);
    let rem = (s.pebbles_remaining - removed) as u32;
    GameState { pebbles_remaining: rem, winner: spec_winner(s.first_player, rem), ..s }
}

/// The state a fresh game starts in: full pile, no winner, the first draw
/// picking the first player. When the automated opponent moves first it
/// plays its opening move at once, consuming the second draw.
pub open spec fn spec_start(init: PebblesInit, rand_first: u32, rand_move: u32) -> GameState {
    let base = GameState {
        pebbles_count: init.pebbles_count,
        max_pebbles_per_turn: init.max_pebbles_per_turn,
        pebbles_remaining: init.pebbles_count,
        difficulty: init.difficulty,
        first_player: spec_first_player(rand_first),
        winner: None,
    };
    if spec_first_player(rand_first) is Program {
        spec_after_program_move(base, rand_move)
    } else {
        base
    }
}

/// A human turn is accepted only in `[1, max_pebbles_per_turn]` and never
/// beyond the pile.
pub open spec fn turn_valid(s: GameState, pebbles: u32) -> bool {
    1 <= pebbles <= s.max_pebbles_per_turn && pebbles <= s.pebbles_remaining
}

/// What one command does to a game: the state after the command and the
/// reply, a possible event on success or the error that left the state
/// unchanged.
///
/// A `Turn` on a decided game is silently ignored; `GiveUp` and `Restart`
/// work even then. A valid `Turn` that leaves pebbles is answered at once
/// by an automated move, reported as a `CounterTurn` event even when that
/// move ends the game. A `Restart` plays no opening move, even when the
/// automated opponent is drawn to go first.
pub open spec fn spec_handle(s: GameState, action: PebblesAction, rand: u32) -> (
    GameState,
    Result<Option<PebblesEvent>, GameError>,
) {
    match action {
        PebblesAction::Turn(pebbles) => {
            if s.winner is Some {
                (s, Ok(None))
            } else if !turn_valid(s, pebbles) {
                (s, Err(GameError::MalformedInput))
            } else {
                let rem = (s.pebbles_remaining - pebbles) as u32;
                let after_user = GameState {
                    pebbles_remaining: rem,
                    winner: spec_winner(s.first_player, rem),
                    ..s
                };
                if after_user.winner is Some {
                    (after_user, Ok(Some(PebblesEvent::Won(after_user.winner.unwrap()))))
                } else {
                    let removed = spec_removed(s.difficulty, s.max_pebbles_per_turn, rem, rand);
                    (
                        spec_after_program_move(after_user, rand),
                        Ok(Some(PebblesEvent::CounterTurn(removed as u32))),
                    )
                }
            }
        },
        PebblesAction::GiveUp => {
            (
                GameState { winner: Some(Player::Program), ..s },
                Ok(Some(PebblesEvent::Won(Player::Program))),
            )
        },
        PebblesAction::Restart { difficulty, pebbles_count, max_pebbles_per_turn } => {
            if !config_valid(pebbles_count, max_pebbles_per_turn) {
                (s, Err(GameError::MalformedInput))
            } else {
                (
                    GameState {
                        difficulty,
                        pebbles_count,
                        max_pebbles_per_turn,
                        pebbles_remaining: pebbles_count,
                        first_player: spec_first_player(rand),
                        winner: None,
                    },
                    Ok(None),
                )
            }
        },
    }
}

/// The winner of a game whose pile is exhausted, `None` while pebbles
/// remain: always the side opposite the recorded first player.
pub fn check_winner(state: &GameState) -> (r: Option<Player>)
    ensures
        r == spec_winner(state.first_player, state.pebbles_remaining),
{
    if state.pebbles_remaining == 0 {
        Some(
            match state.first_player {
                Player::User => Player::Program,
                Player::Program => Player::User,
            },
        )
    } else {
        None
    }
}

impl GameState {
    /// Every state a game can reach: the pile never exceeds its starting
    /// size, the configuration stays positive, and an exhausted pile always
    /// has a winner recorded.
    pub open spec fn wf(self) -> bool {
        &&& self.pebbles_count >= 1
        &&& self.max_pebbles_per_turn >= 1
        &&& self.pebbles_remaining <= self.pebbles_count
        &&& self.pebbles_remaining == 0 ==> self.winner is Some
    }

    /// Runtime check of `wf`, for callers outside verified code.
    pub fn well_formed(&self) -> (r: bool)
        ensures
            r == self.wf(),
    {
        self.pebbles_count >= 1 && self.max_pebbles_per_turn >= 1
            && self.pebbles_remaining <= self.pebbles_count && (self.pebbles_remaining > 0
            || self.winner.is_some())
    }

    /// Start a fresh game. The first draw picks the first player; the
    /// second is consumed only by an Easy opening move. Rejects an empty
    /// pile or a zero turn cap, else returns exactly the start state.
    pub fn new(init: PebblesInit, rand_first: u32, rand_move: u32) -> (r: Result<
        GameState,
        GameError,
    >)
        ensures
            r is Ok <==> config_valid(init.pebbles_count, init.max_pebbles_per_turn),
            r is Err ==> r == Err::<GameState, GameError>(GameError::MalformedInput),
            r matches Ok(s) ==> s == spec_start(init, rand_first, rand_move) && s.wf(),
    {
        if init.pebbles_count == 0 || init.max_pebbles_per_turn == 0 {
            return Err(GameError::MalformedInput);
        }
        let mut state = GameState {
            pebbles_count: init.pebbles_count,
            max_pebbles_per_turn: init.max_pebbles_per_turn,
            pebbles_remaining: init.pebbles_count,
            difficulty: init.difficulty,
            first_player: if rand_first % 2 == 0 {
                Player::User
            } else {
                Player::Program
            },
            winner: None,
        };
        if state.first_player == Player::Program {
            state.program_turn(rand_move);
        }
        Ok(state)
    }

    /// One automated move on a running game: remove the chosen number of
    /// pebbles (clamped to the pile) and record a winner if the pile is now
    /// empty. Returns the number actually removed; the pile strictly
    /// shrinks.
    fn program_turn(&mut self, rand: u32) -> (removed: u32)
        requires
            old(self).wf(),
            old(self).winner is None,
        ensures
            *final(self) == spec_after_program_move(*old(self), rand),
            removed == spec_removed(
                old(self).difficulty,
                old(self).max_pebbles_per_turn,
                old(self).pebbles_remaining,
                rand,
            ),
            final(self).wf(),
            final(self).pebbles_remaining < old(self).pebbles_remaining,
    {
        let chosen = choose_move(
            self.difficulty,
            self.max_pebbles_per_turn,
            self.pebbles_remaining,
            rand,
        );
        let removed = if chosen <= self.pebbles_remaining {
            chosen
        } else {
            self.pebbles_remaining
        };
        self.pebbles_remaining = self.pebbles_remaining - removed;
        let snapshot = *self;
        self.winner = check_winner(&snapshot);
        removed
    }

    /// Apply one command. The random draw is consumed only by an Easy
    /// counter-move or by the first-player choice of a restart. The first
    /// two clauses pin state and reply exactly; the rest state the laws
    /// they imply: a rejected command changes nothing, a decided game
    /// ignores turns entirely, an accepted turn strictly shrinks the pile,
    /// and only `GiveUp` or `Restart` can touch a recorded winner.
    pub fn handle(&mut self, action: PebblesAction, rand: u32) -> (r: Result<
        Option<PebblesEvent>,
        GameError,
    >)
        requires
            old(self).wf(),
        ensures
            *final(self) == spec_handle(*old(self), action, rand).0,
            r == spec_handle(*old(self), action, rand).1,
            final(self).wf(),
            r is Err ==> *final(self) == *old(self),
            old(self).winner is Some && (action matches PebblesAction::Turn(_)) ==> *final(self)
                == *old(self) && r == Ok::<Option<PebblesEvent>, GameError>(None),
            old(self).winner is None && (action matches PebblesAction::Turn(_)) && r is Ok
                ==> final(self).pebbles_remaining < old(self).pebbles_remaining,
            old(self).winner is Some && !(action is GiveUp) && !(action is Restart)
                ==> final(self).winner == old(self).winner,
    {
        match action {
            PebblesAction::Turn(pebbles) => {
                if self.winner.is_some() {
                    return Ok(None);
                }
                if pebbles < 1 || pebbles > self.max_pebbles_per_turn || pebbles
                    > self.pebbles_remaining {
                    return Err(GameError::MalformedInput);
                }
                self.pebbles_remaining = self.pebbles_remaining - pebbles;
                let snapshot = *self;
                self.winner = check_winner(&snapshot);
                if let Some(winner) = self.winner {
                    return Ok(Some(PebblesEvent::Won(winner)));
                }
                let removed = self.program_turn(rand);
                Ok(Some(PebblesEvent::CounterTurn(removed)))
            },
            PebblesAction::GiveUp => {
                self.winner = Some(Player::Program);
                Ok(Some(PebblesEvent::Won(Player::Program)))
            },
            PebblesAction::Restart { difficulty, pebbles_count, max_pebbles_per_turn } => {
                if pebbles_count == 0 || max_pebbles_per_turn == 0 {
                    return Err(GameError::MalformedInput);
                }
                *self = GameState {
                    difficulty,
                    pebbles_count,
                    max_pebbles_per_turn,
                    pebbles_remaining: pebbles_count,
                    first_player: if rand % 2 == 0 {
                        Player::User
                    } else {
                        Player::Program
                    },
                    winner: None,
                };
                Ok(None)
            },
        }
    }
}

} // verus!
