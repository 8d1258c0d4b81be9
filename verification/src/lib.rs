//! A two-player Pong simulation in exact fixed-point arithmetic.
//!
//! Every coordinate, speed and length is a whole number of sub-pixel units
//! ([`units::UNITS_PER_PIXEL`] of them to a pixel), so one tick of the game is
//! a function on integers: [`game::GameState::update`] advances the state by
//! one tick and reports the winner, if the tick produced one. Sums and
//! differences are exact; the one quotient of the game, the spin that a
//! paddle gives the ball, is rounded away from zero, so that no hit off the
//! paddle's centre goes without spin. The window, the keyboard and the
//! renderer are the caller's business: the library takes the held keys as an
//! [`game::Input`] and hands positions back.
//!
//! Contracts are stated over unbounded integers: each data type has a
//! mathematical model (its view), the rules of the game are spec functions on
//! the models, and [`laws`] proves what follows from them over any number of
//! ticks. Machine integers enter in one place: a state must be within
//! [`units::COORD_LIMIT`] of the origin for `update` to accept it.

pub mod units;
pub mod geometry;
pub mod entity;
pub mod game;
pub mod laws;

pub use entity::{Entity, EntityModel, Size};
pub use game::{GameModel, GameState, Input, Player};
pub use geometry::{Rectangle, RectangleModel, Vec2, Vec2Model};
