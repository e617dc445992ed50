//! Core simulation for a small 2D swing game: a player falls under gravity,
//! grapples onto static ledges, and swings around them on a rope.
//!
//! All coordinates, velocities and tuning constants are fixed-point numbers:
//! an `i64` holds the value in thousandths of a world unit, so every tick of
//! the simulation is exact integer arithmetic and every function's behaviour
//! is pinned down by its contract.

use vstd::prelude::*;

pub mod camera;
pub mod fixp;
pub mod physics;
pub mod resolver;
pub mod rope;
pub mod structs;
pub mod swing;
pub mod tick;
pub mod vec2;

verus! {

/// Fixed-point scale: raw values count thousandths of a world unit.
pub const SCALE: i64 = 1000;

/// Largest raw coordinate magnitude the simulation accepts; within it every
/// per-tick computation stays exact in 64-bit arithmetic.
pub const COORD_MAX: i64 = 0x1000_0000_0000_0000;

/// Gravity, raw units per second squared; negative is down.
pub const GRAVITY: i64 = -200_800;

/// Per-tick multiplicative damping factor while swinging, in thousandths.
pub const DAMPING: i64 = 780;

/// Magnitude of the tangential swing velocity, raw units per second.
pub const SWING_SPEED: i64 = 200_000;

/// Lateral kick added to the velocity once, on the attach transition.
pub const SWING_IMPULSE: i64 = 50_000;

/// Camera follow factor on the vertical axis, in thousandths; the horizontal
/// axis follows at full strength.
pub const CAMERA_FOLLOW_Y: i64 = 10;

/// Bound on player, camera and ledge coordinates accepted by a tick.
pub const POS_MAX: i64 = 1_000_000_000_000_000;

/// Bound on the player velocity accepted by a tick.
pub const VEL_MAX: i64 = 100_000_000_000_000;

/// Largest accepted timestep: ten seconds, in thousandths of a second.
pub const DT_MAX: i64 = 10_000;

} // verus!
