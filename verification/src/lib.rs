//! A falling-block puzzle engine, verified.
//!
//! The engine keeps a grid of ten columns and twenty-two rows, lets pieces
//! of four cells enter at the top, moves and turns them, lets them come to
//! rest, clears the rows they complete, and counts score, level and lines.
//!
//! - [`tetromino`]: the pieces and the catalog of their shapes.
//! - [`grid`]: the playing field, and how pieces cover it, fit it and fall.
//! - [`srs`]: rotation with wall kicks.
//! - [`bag`]: the shuffled draw sequence.
//! - [`state`]: the states of a game and what each move makes of them.
//! - [`board`]: the board itself, whose moves are proved to do what the
//!   states say.
//! - [`upkeep`]: why the moves keep the board well-formed.
//! - [`laws`]: what holds of every game.
//! - [`game`]: requests, the pace of gravity, and a game as a whole.
//! - [`window`] and [`ui`]: what is shown of a game, character by character.

pub mod bag;
pub mod board;
pub mod game;
pub mod grid;
pub mod laws;
pub mod srs;
pub mod state;
pub mod tetromino;
pub mod ui;
pub mod upkeep;
pub mod window;
