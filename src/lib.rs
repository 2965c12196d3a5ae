//! The simulation core of a two-paddle ball game: motion, paddle
//! restriction, AI target prediction, collision response, scoring and the
//! game-over evaluation, all on integer field coordinates.
use vstd::prelude::*;

pub mod ai;
pub mod collision;
pub mod game;
pub mod motion;
pub mod pong;
pub mod predictor;
pub mod text;

verus! {

} // verus!
