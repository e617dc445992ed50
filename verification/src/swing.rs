//! The swing attachment state machine.
//!
//! A detached player who asserts grab while a nearest ledge exists attaches
//! to it in the same tick: the ledge id and position are captured, both
//! flags are raised, the rope becomes visible and a fixed lateral kick is
//! added to the velocity, exactly once per attach transition. Releasing grab
//! always clears the attachment, whatever the prior state. While grab is
//! held, the attach point is refreshed from the live ledge each tick and the
//! target stays pinned even if a closer ledge appears; an unresolvable ledge
//! id keeps the previous attach point rather than faulting.

use vstd::prelude::*;

use crate::resolver::{find_ledge, lookup_ledge};
use crate::structs::{player_inv, Ledge, Player};
use crate::vec2::Vec2;

verus! {

/// The tick performs the detached-to-swinging transition: grab is asserted,
/// the player is detached, and a nearest ledge exists to capture.
pub open spec fn is_attach_transition(
    p: Player,
    grab: bool,
    nearest: Option<(u32, Vec2, i64)>,
) -> bool {
    grab && !p.attached && nearest is Some
}

/// Attachment flag after the state machine runs.
pub open spec fn det_attached(p: Player, grab: bool, nearest: Option<(u32, Vec2, i64)>) -> bool {
    if !grab {
        false
    } else if is_attach_transition(p, grab, nearest) {
        true
    } else {
        p.attached
    }
}

/// Swinging flag after the state machine runs.
pub open spec fn det_swinging(p: Player, grab: bool, nearest: Option<(u32, Vec2, i64)>) -> bool {
    if !grab {
        false
    } else if is_attach_transition(p, grab, nearest) {
        true
    } else {
        p.swinging
    }
}

/// Ledge reference after the state machine runs.
pub open spec fn det_ledge_id(
    p: Player,
    grab: bool,
    nearest: Option<(u32, Vec2, i64)>,
) -> Option<u32> {
    if !grab {
        None
    } else if is_attach_transition(p, grab, nearest) {
        match nearest {
            Some(t) => Some(t.0),
            None => None,
        }
    } else {
        p.attached_ledge_id
    }
}

/// Attach point after the state machine runs: snapshotted on the attach
/// transition, refreshed from the live ledge while attached, and retained
/// otherwise — also when the referenced ledge cannot be resolved.
pub open spec fn det_attach_point(
    p: Player,
    grab: bool,
    nearest: Option<(u32, Vec2, i64)>,
    s: Seq<Ledge>,
) -> Vec2 {
    if is_attach_transition(p, grab, nearest) {
        match nearest {
            Some(t) => t.1,
            None => p.attach_point,
        }
    } else if grab && p.attached {
        match p.attached_ledge_id {
            Some(id) => match find_ledge(s, id) {
                Some(l) => l.position,
                None => p.attach_point,
            },
            None => p.attach_point,
        }
    } else {
        p.attach_point
    }
}

/// Horizontal velocity after the state machine runs: the attach transition
/// adds the lateral kick, every other case leaves the velocity alone.
pub open spec fn det_vel_x(p: Player, grab: bool, nearest: Option<(u32, Vec2, i64)>) -> int {
    if is_attach_transition(p, grab, nearest) {
        p.velocity.x + crate::SWING_IMPULSE
    } else {
        p.velocity.x as int
    }
}

/// Rope visibility after the state machine runs.
pub open spec fn det_visible(
    p: Player,
    grab: bool,
    nearest: Option<(u32, Vec2, i64)>,
    vis: bool,
) -> bool {
    if !grab {
        false
    } else if is_attach_transition(p, grab, nearest) {
        true
    } else {
        vis
    }
}

/// The attachment stage of a tick. `nearest` is the resolver's result for
/// the current player position; `ledges` backs the live refresh of the
/// attach point while grab is held.
pub fn player_movement_detection(
    player: &mut Player,
    rope_visible: &mut bool,
    grab: bool,
    nearest: Option<(u32, Vec2, i64)>,
    ledges: &Vec<Ledge>,
)
    requires
        player_inv(*old(player)),
        old(player).velocity.x + crate::SWING_IMPULSE <= i64::MAX,
    ensures
        final(player).attached == det_attached(*old(player), grab, nearest),
        final(player).swinging == det_swinging(*old(player), grab, nearest),
        final(player).attached_ledge_id == det_ledge_id(*old(player), grab, nearest),
        final(player).attach_point == det_attach_point(*old(player), grab, nearest, ledges@),
        final(player).velocity.x == det_vel_x(*old(player), grab, nearest),
        final(player).velocity.y == old(player).velocity.y,
        final(player).position == old(player).position,
        final(player).closest_distance == old(player).closest_distance,
        *final(rope_visible) == det_visible(
            *old(player),
            grab,
            nearest,
            *old(rope_visible),
        ),
        player_inv(*final(player)),
        !grab ==> !final(player).attached && !final(player).swinging
            && final(player).attached_ledge_id is None && !*final(rope_visible),
{
    if grab {
        if !player.attached {
            match nearest {
                Some(t) => {
                    player.attached = true;
                    player.swinging = true;
                    player.attached_ledge_id = Some(t.0);
                    player.attach_point = t.1;
                    player.velocity = Vec2 {
                        x: player.velocity.x + crate::SWING_IMPULSE,
                        y: player.velocity.y,
                    };
                    *rope_visible = true;
                },
                None => {},
            }
        } else {
            match player.attached_ledge_id {
                Some(id) => {
                    match lookup_ledge(ledges, id) {
                        Some(l) => {
                            player.attach_point = l.position;
                        },
                        None => {},
                    }
                },
                None => {},
            }
        }
    } else {
        player.attached = false;
        player.swinging = false;
        player.attached_ledge_id = None;
        *rope_visible = false;
    }
}

} // verus!
