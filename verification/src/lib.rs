//! Simulation core of a grid-based snake game.
//!
//! The crate holds the board model (positions, the snake's ordered body, the
//! food and the set of free cells), the per-move algorithm with its collision
//! rules, the input rule that refuses reversals, and the three-phase game
//! cycle with its timers and one-shot event channels. Time is counted in
//! whole microseconds.
//!
//! - [`grid`]: cells and directions.
//! - [`free`]: the indexable set of free cells and the random draw from it.
//! - [`snake`]: segments, the snake, and the input rule.
//! - [`board`]: the board, its invariant, and the move.
//! - [`events`]: the phase events and their channels.
//! - [`phase`]: the phases, their timers, and the listeners' places.
//! - [`systems`]: the timed phases and the transitions between phases.
//! - [`game`]: the systems that act on the board.
//! - [`session`]: all of it under one owner, and the frame.
//! - [`cycle`]: what holds of whole runs of frames.

pub mod grid;
pub mod free;
pub mod snake;
pub mod board;
pub mod events;
pub mod phase;
pub mod systems;
pub mod game;
pub mod session;
pub mod cycle;
