//! The rules of a game of Pong: the screens and scoring of a match to eleven
//! points, how the paddles decide where to move, how a ball is served, and
//! what the menus and the starry background show. Drawing, sound, the clock,
//! the keyboard and all floating-point geometry belong to the host program.
use vstd::prelude::*;

pub mod ball;
pub mod game;
pub mod paddle;
mod random;
pub mod serve;
pub mod text;
pub mod ui;

verus! {

} // verus!
