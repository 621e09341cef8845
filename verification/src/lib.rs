//! Gameplay core of a top-down shooter: bounded entity pools with
//! borrow/return semantics, projectile and alien state machines, arena
//! boundaries, barrage-fan generation, and the stage's difficulty ramp.
//!
//! All scalar quantities (positions, speeds, the difficulty multiplier)
//! are fixed-point integers in thousandths of a unit, so every rule is
//! exact and provable. The host engine (scene graph, timers, audio,
//! input, random draws) stays outside: callers hand in elapsed time and
//! random draws as plain values and carry out the returned actions.

pub mod alien;
pub mod alien_bullet;
pub mod barrage;
pub mod bullet;
pub mod env;
pub mod magazine;
pub mod player;
pub mod scalar;
pub mod stage;
pub mod vec3;

use vstd::prelude::*;

verus! {

} // verus!
