//! Simulation core of a Snake game played on a wrapping grid.
//!
//! [`Snake`] is the executable game: it is made with [`Snake::new`], moved
//! on by one tick with [`Snake::step`], steered with
//! [`Snake::change_direction`], and read with [`Snake::get_board`] and
//! [`Snake::get_rgb`]. Chance enters only where a fruit is put down.
//! [`Snake::with_fruit`] takes the first fruit's cell and
//! [`Snake::step_with`] the number drawn for the next one, so that a game
//! can be played out move for move.
//!
//! The view of a `Snake` is a [`model::GameState`], and every operation is
//! specified as a function on game states. What holds of every game,
//! whatever is drawn, is proved in [`laws`].

pub mod geometry;
pub mod laws;
pub mod lemmas;
pub mod model;
mod rng;
pub mod snake;

pub use geometry::{Direction, Point};
pub use snake::Snake;
