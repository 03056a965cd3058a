//! Simulation core of an endless runner: character physics, a streamed
//! level, box overlap tests, progression bookkeeping and the game's
//! state machine. All quantities are fixed-point integers (see `geometry`).

pub mod geometry;
pub mod character;
pub mod level;
pub mod progress;
pub mod ui;
pub mod game;
