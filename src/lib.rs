//! A snake that evolves by eating the prey of its area.
//!
//! `evolution` holds the tiers and the transition table, `location` an area
//! with its weighted spawns and enemy counters, `answer` the reading of a
//! player's yes or no, and `game` the session as a state machine that a
//! console loop drives one event and one answer at a time.

pub mod answer;
mod draw;
pub mod evolution;
pub mod game;
pub mod location;
