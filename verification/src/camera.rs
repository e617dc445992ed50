//! Camera follow: per-axis exponential-style smoothing toward the player.
//!
//! The horizontal axis tracks at full strength, so the camera's horizontal
//! position equals the player's after every sync; the vertical axis follows
//! at `CAMERA_FOLLOW_Y` thousandths of the remaining gap per tick.

use vstd::prelude::*;

use crate::fixp::{lemma_div_trunc_bounds, mul_milli, mul_milli_spec};
use crate::structs::Camera;
use crate::vec2::Vec2;

verus! {

/// Move the camera toward `player_pos`: all the way horizontally, a
/// `CAMERA_FOLLOW_Y`-thousandths step of the gap vertically.
pub fn sync_player_camera(camera: &mut Camera, player_pos: Vec2)
    requires
        -4 * crate::POS_MAX <= player_pos.x <= 4 * crate::POS_MAX,
        -4 * crate::POS_MAX <= player_pos.y <= 4 * crate::POS_MAX,
        -4 * crate::POS_MAX <= old(camera).position.x <= 4 * crate::POS_MAX,
        -4 * crate::POS_MAX <= old(camera).position.y <= 4 * crate::POS_MAX,
    ensures
        final(camera).position.x == player_pos.x,
        final(camera).position.y == old(camera).position.y + mul_milli_spec(
            player_pos.y - old(camera).position.y,
            crate::CAMERA_FOLLOW_Y as int,
        ),
{
    let dx = player_pos.x - camera.position.x;
    proof {
        lemma_div_trunc_bounds(
            (player_pos.y - camera.position.y) * crate::CAMERA_FOLLOW_Y as int,
            crate::SCALE as int,
        );
    }
    let dy = mul_milli(player_pos.y - camera.position.y, crate::CAMERA_FOLLOW_Y);
    camera.position = Vec2 { x: camera.position.x + dx, y: camera.position.y + dy };
}

} // verus!
