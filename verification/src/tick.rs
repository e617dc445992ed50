//! One simulation tick, with the fixed stage order: ledge proximity scan,
//! attachment transition, distance-cache refresh, swing motion, physics
//! integration, rope mirroring, camera follow.
//!
//! Every stage short-circuits independently when its entities are missing: a
//! degenerate tick (no player, no ledges, no rope, no camera) changes
//! nothing and never faults.

use vstd::prelude::*;

use crate::camera::sync_player_camera;
use crate::physics::{
    apply_gravity_and_motion, damp_component, grav_vel_y, integrate_pos, player_movement_moving,
    swing_vel_x, swing_vel_y,
};
use crate::resolver::{
    lemma_find_ledge_in, lemma_nearest_idx_props, nearest_idx, nearest_opt, player_ledge_edging,
    update_ledges_information, with_distances,
};
use crate::rope::update_rope_endpoints;
use crate::structs::{ledges_pos_ok, Scene};
use crate::swing::{
    det_attach_point, det_attached, det_ledge_id, det_swinging, det_vel_x,
    player_movement_detection,
};
use crate::vec2::{dist_fx, dist_sq, pos_ok, vel_ok, Vec2};

verus! {

/// All coordinates a tick reads are within the bounds under which its
/// arithmetic is exact.
pub open spec fn tick_bounds(s: Scene) -> bool {
    &&& match s.player {
        Some(p) => pos_ok(p.position) && vel_ok(p.velocity) && pos_ok(p.attach_point),
        None => true,
    }
    &&& ledges_pos_ok(s.ledges@)
    &&& match s.camera {
        Some(c) => pos_ok(c.position),
        None => true,
    }
}

/// Advance the scene by one tick. `grab` is the externally resolved grab
/// intent for this tick; `dt` is the frame timestep in thousandths of a
/// second.
///
/// The postconditions pin the whole pipeline down: the state machine's
/// flags and target, the tangential overwrite, gravity, damping, the Euler
/// position step, the refreshed distance caches, the rope endpoints and the
/// camera, each as an exact function of the starting scene. In particular,
/// at the end of every tick a swinging player is attached, and a tick whose
/// grab signal is released always ends detached with no ledge reference.
///
/// On the attach tick itself the state machine's lateral kick seeds the
/// velocity and the pendulum overwrite that follows replaces it, except
/// when the captured ledge coincides with the player; the kick's lasting
/// effect is therefore confined to that degenerate case, which is the
/// ordering the component contracts spell out.
pub fn tick(scene: &mut Scene, grab: bool, dt: i64)
    requires
        old(scene).wf(),
        tick_bounds(*old(scene)),
        0 <= dt <= crate::DT_MAX,
    ensures
        final(scene).wf(),
        final(scene).pipes@ == old(scene).pipes@,
        final(scene).next_ledge_id == old(scene).next_ledge_id,
        final(scene).camera is Some <==> old(scene).camera is Some,
        final(scene).rope is Some <==> old(scene).rope is Some,
        final(scene).player is Some <==> old(scene).player is Some,
        old(scene).player is None ==> *final(scene) == *old(scene),
        old(scene).player matches Some(p0) ==> final(scene).ledges@ == with_distances(
            p0.position,
            old(scene).ledges@,
        ),
        final(scene).player matches Some(q) ==> (q.swinging ==> q.attached),
        old(scene).player is Some && !grab ==> (final(scene).player matches Some(q)
            && !q.attached && !q.swinging && q.attached_ledge_id is None
            && !final(scene).rope_visible),
        old(scene).player is Some ==> (final(scene).player matches Some(q)
            && final(scene).rope_visible == q.attached),
        old(scene).player matches Some(p0) ==> ({
            let s0 = old(scene).ledges@;
            let nr = nearest_opt(p0.position, s0);
            let att = det_attached(p0, grab, nr);
            let swi = det_swinging(p0, grab, nr);
            let ap = det_attach_point(p0, grab, nr, s0);
            let swing_now = swi && att && dist_sq(p0.position, ap) != 0;
            let vx2 = if swing_now {
                swing_vel_x(p0.position, ap)
            } else {
                det_vel_x(p0, grab, nr)
            };
            let vy2 = if swing_now {
                swing_vel_y(p0.position, ap)
            } else {
                p0.velocity.y as int
            };
            let vx3 = damp_component(vx2, swi);
            let vy3 = damp_component(grav_vel_y(vy2, att, dt as int), swi);
            final(scene).player matches Some(q) && q.attached == att && q.swinging == swi
                && q.attached_ledge_id == det_ledge_id(p0, grab, nr) && q.attach_point == ap
                && q.closest_distance == (if !p0.attached && s0.len() > 0 {
                dist_fx(p0.position, s0[nearest_idx(p0.position, s0)].position) as i64
            } else {
                p0.closest_distance
            }) && q.velocity.x == vx3 && q.velocity.y == vy3 && q.position.x == integrate_pos(
                p0.position.x as int,
                vx3,
                dt as int,
            ) && q.position.y == integrate_pos(p0.position.y as int, vy3, dt as int)
        }),
        old(scene).rope matches Some(r0) && old(scene).player is Some
            ==> (final(scene).rope matches Some(r) && final(scene).player matches Some(q)
            && r.start == q.position && r.end == q.attach_point),
        old(scene).camera matches Some(c0) ==> (old(scene).player is Some
            ==> (final(scene).camera matches Some(c) && final(scene).player matches Some(q)
            && c.position.x == q.position.x && c.position.y == c0.position.y
            + crate::fixp::mul_milli_spec(
            q.position.y - c0.position.y,
            crate::CAMERA_FOLLOW_Y as int,
        ))),
{
    match scene.player {
        None => {},
        Some(p0) => {
            let ghost s0 = scene.ledges@;
            let mut p = p0;
            let nearest = player_ledge_edging(&mut p, &scene.ledges);
            proof {
                if p.attached && grab {
                    match p.attached_ledge_id {
                        Some(id) => {
                            lemma_find_ledge_in(s0, id);
                        },
                        None => {},
                    }
                }
                if s0.len() > 0 {
                    lemma_nearest_idx_props(p0.position, s0);
                }
            }
            player_movement_detection(
                &mut p,
                &mut scene.rope_visible,
                grab,
                nearest,
                &scene.ledges,
            );
            update_ledges_information(p.position, &mut scene.ledges);
            player_movement_moving(&mut p);
            apply_gravity_and_motion(&mut p, dt);
            match scene.rope {
                Some(r0) => {
                    let mut r = r0;
                    update_rope_endpoints(&mut r, &p);
                    scene.rope = Some(r);
                },
                None => {},
            }
            match scene.camera {
                Some(c0) => {
                    let mut c = c0;
                    sync_player_camera(&mut c, p.position);
                    scene.camera = Some(c);
                },
                None => {},
            }
            scene.player = Some(p);
            proof {
                assert forall|i: int, j: int|
                    0 <= i < j < scene.ledges@.len() implies scene.ledges@[i].id
                    != scene.ledges@[j].id by {
                    assert(scene.ledges@[i].id == old(scene).ledges@[i].id);
                    assert(scene.ledges@[j].id == old(scene).ledges@[j].id);
                }
                assert forall|i: int|
                    0 <= i < scene.ledges@.len() implies scene.ledges@[i].id
                    < scene.next_ledge_id by {
                    assert(scene.ledges@[i].id == old(scene).ledges@[i].id);
                }
            }
        },
    }
}

} // verus!
