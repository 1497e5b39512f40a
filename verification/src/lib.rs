//! A two-player pebble-removal game (a bounded subtraction game) against an
//! automated opponent.
//!
//! The pile starts at `pebbles_count`; each turn removes between 1 and
//! `max_pebbles_per_turn` pebbles. The automated opponent plays either a
//! random move (Easy) or the optimal strategy for the subtraction game
//! (Hard). The host that delivers commands, emits events and supplies
//! entropy stays outside this crate; every function here works on plain
//! values and is verified.

pub mod game;
pub mod strategy;
pub mod types;
