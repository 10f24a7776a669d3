pub mod geometry;
pub mod movement;
pub mod singleton;
pub mod tween;
pub mod enemy;
pub mod world;

use vstd::prelude::*;

verus! {

/// Milli-pixels per pixel: positions are stored in thousandths of a pixel so
/// that a speed in pixels per second times an elapsed time in milliseconds
/// lands exactly on a stored coordinate.
pub const MILLI: i64 = 1000;

/// Largest coordinate magnitude (in milli-pixels) the simulation admits;
/// chosen so that every intermediate product in the movement and tween
/// arithmetic fits in an `i64`.
pub const MAX_COORD: i64 = 1_000_000_000;

/// Visual extent of the player and enemy sprites: 64 pixels, in milli-pixels.
pub const PLAYER_SIZE: i64 = 64_000;

/// Player speed, in pixels per second.
pub const PLAYER_SPEED: i64 = 300;

/// Enemy speed, in pixels per second. Enemy motion is driven by the
/// one-second tween toward a one-pixel target, so this constant does not
/// enter the per-frame step.
pub const ENEMY_SPEED: i64 = 700;

/// How many enemies are spawned at startup; the count never changes
/// afterward.
pub const NUMBER_OF_ENEMIES: usize = 4;

} // verus!
