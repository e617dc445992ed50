//! Rope derivation: the drawable line segment between the player and the
//! active attach point.
//!
//! The rope holds no state of its own; its endpoints mirror the player
//! position and attach point, and the descriptor below is recomputed from
//! scratch each tick it is consumed. The sprite's angle is the arctangent of
//! the direction plus a quarter turn; being transcendental it is left to the
//! presentation layer, which computes it from the exact `direction` vector.

use vstd::prelude::*;

use crate::fixp::{div_trunc, div_trunc_i64};
use crate::structs::{Player, Rope, Scene};
use crate::vec2::{dist, dist_fx, Vec2};

verus! {

/// Read-only descriptor of the rope for the presentation layer.
#[derive(Clone, Copy, Debug)]
pub struct RopeView {
    pub visible: bool,
    pub start: Vec2,
    pub end: Vec2,
    pub midpoint: Vec2,
    pub direction: Vec2,
    pub length: i64,
}

/// Mirror the player's position and attach point into the rope's endpoints.
pub fn update_rope_endpoints(rope: &mut Rope, player: &Player)
    ensures
        final(rope).start == player.position,
        final(rope).end == player.attach_point,
{
    rope.start = player.position;
    rope.end = player.attach_point;
}

/// Derive the rope descriptor: midpoint, direction and fixed-point length
/// of the segment, plus the visibility flag handed in by the caller (the
/// rope is visible exactly while the player is attached).
pub fn update_rope(rope: &Rope, visible: bool) -> (r: RopeView)
    requires
        -4 * crate::POS_MAX <= rope.start.x <= 4 * crate::POS_MAX,
        -4 * crate::POS_MAX <= rope.start.y <= 4 * crate::POS_MAX,
        -4 * crate::POS_MAX <= rope.end.x <= 4 * crate::POS_MAX,
        -4 * crate::POS_MAX <= rope.end.y <= 4 * crate::POS_MAX,
    ensures
        r.visible == visible,
        r.start == rope.start,
        r.end == rope.end,
        r.midpoint.x == div_trunc(rope.start.x + rope.end.x, 2),
        r.midpoint.y == div_trunc(rope.start.y + rope.end.y, 2),
        r.direction.x == rope.end.x - rope.start.x,
        r.direction.y == rope.end.y - rope.start.y,
        r.length == dist_fx(rope.start, rope.end),
{
    let mx = div_trunc_i64(rope.start.x + rope.end.x, 2);
    let my = div_trunc_i64(rope.start.y + rope.end.y, 2);
    let length = dist(rope.start, rope.end);
    RopeView {
        visible,
        start: rope.start,
        end: rope.end,
        midpoint: Vec2 { x: mx, y: my },
        direction: Vec2 { x: rope.end.x - rope.start.x, y: rope.end.y - rope.start.y },
        length,
    }
}

/// The scene's rope descriptor for this tick, or nothing when no rope
/// entity exists — a recoverable condition, not a fault. The rope is marked
/// visible exactly while the rope entity is shown, which the scene keeps in
/// step with the player's attachment.
pub fn rope_view(scene: &Scene) -> (r: Option<RopeView>)
    requires
        scene.rope matches Some(rp) ==> -4 * crate::POS_MAX <= rp.start.x <= 4
            * crate::POS_MAX && -4 * crate::POS_MAX <= rp.start.y <= 4 * crate::POS_MAX
            && -4 * crate::POS_MAX <= rp.end.x <= 4 * crate::POS_MAX && -4 * crate::POS_MAX
            <= rp.end.y <= 4 * crate::POS_MAX,
    ensures
        r is Some <==> scene.rope is Some,
        scene.rope matches Some(rp) ==> (r matches Some(v) && v.visible
            == scene.rope_visible && v.start == rp.start && v.end == rp.end && v.midpoint.x
            == div_trunc(rp.start.x + rp.end.x, 2) && v.midpoint.y == div_trunc(
            rp.start.y + rp.end.y,
            2,
        ) && v.direction.x == rp.end.x - rp.start.x && v.direction.y == rp.end.y - rp.start.y
            && v.length == dist_fx(rp.start, rp.end)),
{
    match &scene.rope {
        Some(rp) => Some(update_rope(rp, scene.rope_visible)),
        None => None,
    }
}

} // verus!
