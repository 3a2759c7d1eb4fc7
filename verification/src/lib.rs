//! Frame-update logic for four small 2D arcade game demos: a pong-style
//! paddle/ball simulation, a flappy-bird-style bird/pipe simulation, a
//! platformer robot enemy, and a soccer goal activation check.
//!
//! Rendering, windowing, input polling and audio stay with the host engine;
//! this crate holds only the deterministic per-frame update rules. Randomized
//! behaviour is split in two layers: a core function that takes every random
//! draw as an explicit argument and carries an exact contract, and a thin
//! caller that fetches the draws from the process RNG.
//!
//! Positions, velocities and distances are fixed-point integers in
//! micro-pixels (one pixel is 1_000_000 units), except in the platformer
//! module, which works in whole pixels. Time deltas are microseconds.

use vstd::prelude::*;

pub mod cavern;
pub mod flappy;
pub mod pong;
pub mod rng;
pub mod soccer;

verus! {

} // verus!
