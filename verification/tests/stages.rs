use ledge_swing::camera::sync_player_camera;
use ledge_swing::physics::{apply_gravity_and_motion, player_movement_moving};
use ledge_swing::resolver::{lookup_ledge, nearest_ledge, update_ledges_information};
use ledge_swing::rope::update_rope;
use ledge_swing::structs::{Camera, Ledge, Player, Rope};
use ledge_swing::swing::player_movement_detection;
use ledge_swing::vec2::Vec2;
use ledge_swing::{DAMPING, GRAVITY, SCALE, SWING_IMPULSE, SWING_SPEED};

fn v(x: i64, y: i64) -> Vec2 {
    Vec2 { x, y }
}

fn ledge(id: u32, x: i64, y: i64) -> Ledge {
    Ledge { distance_from_player: 0, id, position: v(x, y) }
}

fn free_player(x: i64, y: i64) -> Player {
    Player {
        position: v(x, y),
        velocity: v(0, 0),
        attached: false,
        swinging: false,
        attached_ledge_id: None,
        attach_point: v(0, 0),
        closest_distance: i64::MAX,
    }
}

#[test]
fn nearest_picks_minimum_distance() {
    // Player at (400, 300); ledges at (450, 300) and (600, 300).
    let ledges = vec![ledge(0, 450_000, 300_000), ledge(1, 600_000, 300_000)];
    let r = nearest_ledge(v(400_000, 300_000), &ledges);
    let (id, pos, d) = r.expect("two ledges present");
    assert_eq!(id, 0);
    assert_eq!(pos, v(450_000, 300_000));
    assert_eq!(d, 50_000);
}

#[test]
fn nearest_tie_goes_to_earliest() {
    // Both ledges are exactly 1 unit away; the earlier-spawned one wins.
    let ledges = vec![ledge(7, -1_000, 0), ledge(3, 1_000, 0)];
    let r = nearest_ledge(v(0, 0), &ledges);
    let (id, pos, d) = r.expect("two ledges present");
    assert_eq!(id, 7);
    assert_eq!(pos, v(-1_000, 0));
    assert_eq!(d, 1_000);
}

#[test]
fn nearest_of_no_ledges_is_none() {
    let ledges: Vec<Ledge> = Vec::new();
    assert!(nearest_ledge(v(0, 0), &ledges).is_none());
}

#[test]
fn distance_cache_exact_and_idempotent() {
    // 3-4-5 triangle: the cache holds exactly 5 units.
    let mut ledges = vec![ledge(0, 3_000, 4_000), ledge(1, 0, 7_000)];
    let p = v(0, 0);
    update_ledges_information(p, &mut ledges);
    assert_eq!(ledges[0].distance_from_player, 5_000);
    assert_eq!(ledges[1].distance_from_player, 7_000);
    let first: Vec<i64> = ledges.iter().map(|l| l.distance_from_player).collect();
    update_ledges_information(p, &mut ledges);
    let second: Vec<i64> = ledges.iter().map(|l| l.distance_from_player).collect();
    assert_eq!(first, second);
}

#[test]
fn distance_cache_rounds_down() {
    // sqrt(5000^2 + 5000^2) = 7071.06...; the fixed-point cache floors it.
    let mut ledges = vec![ledge(0, 5_000, 5_000)];
    update_ledges_information(v(0, 0), &mut ledges);
    assert_eq!(ledges[0].distance_from_player, 7_071);
}

#[test]
fn lookup_finds_by_id_and_misses_gracefully() {
    let ledges = vec![ledge(4, 1_000, 0), ledge(9, 2_000, 0)];
    let hit = lookup_ledge(&ledges, 9).expect("id 9 exists");
    assert_eq!(hit.position, v(2_000, 0));
    assert!(lookup_ledge(&ledges, 5).is_none());
}

#[test]
fn grab_attaches_and_kicks_once() {
    let mut p = free_player(400_000, 300_000);
    let mut vis = false;
    let ledges = vec![ledge(0, 450_000, 300_000)];
    let nearest = Some((0u32, v(450_000, 300_000), 50_000i64));
    player_movement_detection(&mut p, &mut vis, true, nearest, &ledges);
    assert!(p.attached);
    assert!(p.swinging);
    assert_eq!(p.attached_ledge_id, Some(0));
    assert_eq!(p.attach_point, v(450_000, 300_000));
    assert_eq!(p.velocity.x, SWING_IMPULSE);
    assert!(vis);
    // Holding grab must not repeat the kick.
    player_movement_detection(&mut p, &mut vis, true, nearest, &ledges);
    assert_eq!(p.velocity.x, SWING_IMPULSE);
}

#[test]
fn release_clears_attachment_from_any_state() {
    let mut p = free_player(0, 0);
    p.attached = true;
    p.swinging = true;
    p.attached_ledge_id = Some(2);
    let mut vis = true;
    let ledges = vec![ledge(2, 1_000, 0)];
    player_movement_detection(&mut p, &mut vis, false, None, &ledges);
    assert!(!p.attached);
    assert!(!p.swinging);
    assert!(p.attached_ledge_id.is_none());
    assert!(!vis);
}

#[test]
fn grab_without_ledges_stays_detached() {
    let mut p = free_player(0, 0);
    let mut vis = false;
    let ledges: Vec<Ledge> = Vec::new();
    player_movement_detection(&mut p, &mut vis, true, None, &ledges);
    assert!(!p.attached);
    assert!(!p.swinging);
    assert!(p.attached_ledge_id.is_none());
    assert!(!vis);
}

#[test]
fn held_grab_refreshes_attach_point_and_keeps_it_on_miss() {
    let mut p = free_player(0, 0);
    p.attached = true;
    p.swinging = true;
    p.attached_ledge_id = Some(1);
    p.attach_point = v(9_000, 9_000);
    let mut vis = true;
    let ledges = vec![ledge(1, 5_000, 6_000)];
    player_movement_detection(&mut p, &mut vis, true, None, &ledges);
    assert_eq!(p.attach_point, v(5_000, 6_000));
    // The referenced ledge disappears: the previous attach point is kept.
    let empty: Vec<Ledge> = Vec::new();
    player_movement_detection(&mut p, &mut vis, true, None, &empty);
    assert_eq!(p.attach_point, v(5_000, 6_000));
}

#[test]
fn swing_velocity_is_tangential_at_full_speed() {
    // Attach point one-half unit to the right: the tangent points straight
    // down and the speed is exactly SWING_SPEED before damping.
    let mut p = free_player(400_000, 300_000);
    p.attached = true;
    p.swinging = true;
    p.attach_point = v(450_000, 300_000);
    player_movement_moving(&mut p);
    assert_eq!(p.velocity, v(0, -SWING_SPEED));
    assert_eq!(
        p.velocity.x * p.velocity.x + p.velocity.y * p.velocity.y,
        SWING_SPEED * SWING_SPEED
    );
}

#[test]
fn swing_velocity_skips_degenerate_direction() {
    let mut p = free_player(1_000, 2_000);
    p.attached = true;
    p.swinging = true;
    p.attach_point = v(1_000, 2_000);
    p.velocity = v(7, 7);
    player_movement_moving(&mut p);
    assert_eq!(p.velocity, v(7, 7));
}

#[test]
fn swing_velocity_leaves_free_fall_alone() {
    let mut p = free_player(0, 0);
    p.velocity = v(123, 456);
    player_movement_moving(&mut p);
    assert_eq!(p.velocity, v(123, 456));
}

#[test]
fn gravity_applies_exactly_when_detached() {
    let mut p = free_player(0, 0);
    apply_gravity_and_motion(&mut p, 100);
    // GRAVITY * dt = -200.8 * 0.1 = -20.08 units per second.
    assert_eq!(p.velocity.y, GRAVITY * 100 / SCALE);
    assert_eq!(p.velocity.y, -20_080);
    // Position integrates the new velocity: -20.08 * 0.1 = -2.008 units.
    assert_eq!(p.position.y, -2_008);
    assert_eq!(p.position.x, 0);
}

#[test]
fn gravity_skipped_while_attached() {
    let mut p = free_player(0, 0);
    p.attached = true;
    p.velocity = v(1_000, 2_000);
    apply_gravity_and_motion(&mut p, 100);
    assert_eq!(p.velocity, v(1_000, 2_000));
    assert_eq!(p.position, v(100, 200));
}

#[test]
fn damping_scales_velocity_exactly() {
    let mut p = free_player(0, 0);
    p.attached = true;
    p.swinging = true;
    p.velocity = v(100_000, -50_000);
    apply_gravity_and_motion(&mut p, 0);
    assert_eq!(p.velocity.x, 100_000 * DAMPING / SCALE);
    assert_eq!(p.velocity, v(78_000, -39_000));
}

#[test]
fn damping_strictly_reduces_speed() {
    let mut p = free_player(0, 0);
    p.attached = true;
    p.swinging = true;
    p.velocity = v(333, -777);
    let before = p.velocity.x * p.velocity.x + p.velocity.y * p.velocity.y;
    apply_gravity_and_motion(&mut p, 0);
    let after = p.velocity.x * p.velocity.x + p.velocity.y * p.velocity.y;
    assert!(after < before);
}

#[test]
fn rope_descriptor_exact() {
    let rope = Rope { start: v(0, 0), end: v(10_000, 20_000) };
    let view = update_rope(&rope, true);
    assert!(view.visible);
    assert_eq!(view.start, v(0, 0));
    assert_eq!(view.end, v(10_000, 20_000));
    assert_eq!(view.midpoint, v(5_000, 10_000));
    assert_eq!(view.direction, v(10_000, 20_000));
    // sqrt(10000^2 + 20000^2) = 22360.67...; floored.
    assert_eq!(view.length, 22_360);
}

#[test]
fn rope_midpoint_truncates_toward_zero() {
    let rope = Rope { start: v(-1_001, 3), end: v(0, 0) };
    let view = update_rope(&rope, false);
    assert!(!view.visible);
    assert_eq!(view.midpoint, v(-500, 1));
}

#[test]
fn camera_follows_fully_horizontal_gently_vertical() {
    let mut cam = Camera { position: v(0, 0) };
    sync_player_camera(&mut cam, v(10_000, 10_000));
    assert_eq!(cam.position.x, 10_000);
    // Vertical gap closes at 10/1000 per sync: 10 units * 0.01 = 0.1 units.
    assert_eq!(cam.position.y, 100);
    sync_player_camera(&mut cam, v(10_000, 10_000));
    assert_eq!(cam.position.y, 199);
}
