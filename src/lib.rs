//! Onset detection on live audio and the enemy spawn scheduling that it drives.
//!
//! World coordinates are fixed-point numbers in milli-units: the position
//! `x = 2.5` is stored as `2_500`.
use vstd::prelude::*;

pub mod audio_analysis;
pub mod enemy_spawn;

verus! {

/// The kinds of object that populate the game world.
#[derive(Clone, Copy, Debug, PartialEq, Eq, Structural)]
pub enum GameObjectType {
    Player,
    Enemy,
    Bullet,
}

/// A point in the game world, in milli-units.
#[derive(Clone, Copy, Debug, PartialEq, Eq, Structural)]
pub struct Position {
    pub x: i64,
    pub y: i64,
    pub z: i64,
}

} // verus!
