//! Core of a single-player trivia game: the player judges whether captioned
//! scenarios are real or fabricated over a fixed number of rounds.
//!
//! `game` holds the state machine that evolves the session in response to
//! player and network events; `view` maps each state to a view description.

pub mod game;
pub mod view;
