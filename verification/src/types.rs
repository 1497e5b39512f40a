//! Plain data types shared by the game: players, difficulty levels, the
//! commands the host delivers and the events it receives back.

use vstd::prelude::*;

verus! {

/// One of the two sides of the game.
#[derive(Clone, Copy, Debug, PartialEq, Eq, Structural)]
pub enum Player {
    /// The human player.
    User,
    /// The automated opponent.
    Program,
}

/// Selects the automated opponent's move-selection policy.
#[derive(Clone, Copy, Debug, PartialEq, Eq, Structural)]
pub enum DifficultyLevel {
    /// A uniformly random move in `[1, max_pebbles_per_turn]`.
    Easy,
    /// The optimal strategy for the subtraction game.
    Hard,
}

/// Parameters for starting a fresh game.
#[derive(Clone, Copy, Debug, PartialEq, Eq, Structural)]
pub struct PebblesInit {
    pub difficulty: DifficultyLevel,
    pub pebbles_count: u32,
    pub max_pebbles_per_turn: u32,
}

/// A command delivered to a running game.
#[derive(Clone, Copy, Debug, PartialEq, Eq, Structural)]
pub enum PebblesAction {
    /// The human removes the given number of pebbles.
    Turn(u32),
    /// The human concedes; the automated opponent wins at once.
    GiveUp,
    /// Discard the current game and start a fresh one with these parameters.
    Restart {
        difficulty: DifficultyLevel,
        pebbles_count: u32,
        max_pebbles_per_turn: u32,
    },
}

/// An event produced in response to a command.
#[derive(Clone, Copy, Debug, PartialEq, Eq, Structural)]
pub enum PebblesEvent {
    /// The automated opponent answered the human's turn by removing this
    /// many pebbles.
    CounterTurn(u32),
    /// The game ended with this winner.
    Won(Player),
}

/// Why a command was rejected. A rejected command leaves the game unchanged.
#[derive(Clone, Copy, Debug, PartialEq, Eq, Structural)]
pub enum GameError {
    /// A turn amount outside `[1, max_pebbles_per_turn]` or larger than the
    /// pile, or a configuration with a zero pile or a zero turn cap.
    MalformedInput,
}

/// The other side of the game.
pub open spec fn opposite(p: Player) -> Player {
    match p {
        Player::User => Player::Program,
        Player::Program => Player::User,
    }
}

} // verus!
