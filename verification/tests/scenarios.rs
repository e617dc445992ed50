use ledge_swing::rope::rope_view;
use ledge_swing::structs::Scene;
use ledge_swing::tick::tick;
use ledge_swing::vec2::Vec2;

fn v(x: i64, y: i64) -> Vec2 {
    Vec2 { x, y }
}

/// Player at (400, 300), ledges at (450, 300) and (600, 300).
fn demo_scene() -> Scene {
    let mut scene = Scene::new();
    scene.add_player(v(400_000, 300_000));
    scene.add_ledge(v(450_000, 300_000));
    scene.add_ledge(v(600_000, 300_000));
    scene.add_camera(v(400_000, 300_000));
    scene.add_rope(v(400_000, 300_000), v(450_000, 300_000));
    scene
}

#[test]
fn grab_pressed_selects_nearest_and_attaches() {
    let mut scene = demo_scene();
    tick(&mut scene, true, 100);
    let p = scene.player.expect("player present");
    assert!(p.attached);
    assert!(p.swinging);
    assert_eq!(p.attached_ledge_id, Some(0));
    assert_eq!(p.attach_point, v(450_000, 300_000));
    assert_eq!(p.closest_distance, 50_000);
    assert!(scene.rope_visible);
}

#[test]
fn attach_tick_swings_with_damped_tangential_velocity() {
    let mut scene = demo_scene();
    tick(&mut scene, true, 100);
    let p = scene.player.expect("player present");
    // Tangential velocity (0, -200) units, then damping by 0.78.
    assert_eq!(p.velocity, v(0, -156_000));
    // One Euler step at dt = 0.1 s moves the player by -15.6 units.
    assert_eq!(p.position, v(400_000, 284_400));
}

#[test]
fn ticks_preserve_swinging_implies_attached() {
    let mut scene = demo_scene();
    let inputs = [true, true, false, true, false, false, true];
    for (i, grab) in inputs.iter().enumerate() {
        tick(&mut scene, *grab, 100);
        let p = scene.player.expect("player present");
        assert!(!p.swinging || p.attached, "invariant broken on tick {}", i);
        assert_eq!(scene.rope_visible, p.attached);
    }
}

#[test]
fn target_stays_pinned_while_grab_is_held() {
    let mut scene = demo_scene();
    for _ in 0..30 {
        tick(&mut scene, true, 16);
        let p = scene.player.expect("player present");
        // However the swing moves the player, the captured ledge is kept
        // until release: no target flicker toward the farther ledge.
        assert_eq!(p.attached_ledge_id, Some(0));
        assert_eq!(p.attach_point, v(450_000, 300_000));
    }
}

#[test]
fn release_clears_attachment_same_tick() {
    let mut scene = demo_scene();
    tick(&mut scene, true, 100);
    assert!(scene.player.unwrap().attached);
    tick(&mut scene, false, 100);
    let p = scene.player.expect("player present");
    assert!(!p.attached);
    assert!(!p.swinging);
    assert!(p.attached_ledge_id.is_none());
    assert!(!scene.rope_visible);
}

#[test]
fn gravity_resumes_after_release() {
    let mut scene = demo_scene();
    tick(&mut scene, true, 100);
    tick(&mut scene, false, 100);
    let vy_after_release = scene.player.unwrap().velocity.y;
    tick(&mut scene, false, 100);
    let vy_next = scene.player.unwrap().velocity.y;
    // GRAVITY < 0, so each detached tick lowers velocity.y by exactly
    // |GRAVITY| * dt = 20.08 units per second.
    assert_eq!(vy_next - vy_after_release, -20_080);
}

#[test]
fn zero_ledges_never_faults_and_never_attaches() {
    let mut scene = Scene::new();
    scene.add_player(v(0, 0));
    tick(&mut scene, true, 100);
    let p = scene.player.expect("player present");
    assert!(!p.attached);
    assert!(!p.swinging);
    assert!(p.attached_ledge_id.is_none());
    // Free fall still happens.
    assert_eq!(p.velocity.y, -20_080);
}

#[test]
fn empty_scene_tick_is_a_no_op() {
    let mut scene = Scene::new();
    tick(&mut scene, true, 100);
    assert!(scene.player.is_none());
    assert!(scene.camera.is_none());
    assert!(scene.rope.is_none());
    assert!(scene.ledges.is_empty());
}

#[test]
fn distance_caches_live_after_every_tick() {
    let mut scene = demo_scene();
    tick(&mut scene, false, 0);
    // dt = 0: the player did not move, so caches match the start position.
    assert_eq!(scene.ledges[0].distance_from_player, 50_000);
    assert_eq!(scene.ledges[1].distance_from_player, 200_000);
}

#[test]
fn rope_mirrors_player_and_attach_point() {
    let mut scene = demo_scene();
    tick(&mut scene, true, 100);
    let p = scene.player.unwrap();
    let r = scene.rope.unwrap();
    assert_eq!(r.start, p.position);
    assert_eq!(r.end, p.attach_point);
    let view = rope_view(&scene).expect("rope present");
    assert!(view.visible);
    assert_eq!(view.start, r.start);
    assert_eq!(view.end, r.end);
}

#[test]
fn camera_tracks_player_each_tick() {
    let mut scene = demo_scene();
    tick(&mut scene, false, 100);
    let p = scene.player.unwrap();
    let c = scene.camera.unwrap();
    assert_eq!(c.position.x, p.position.x);
    // Vertical follow: 10/1000 of the gap from (300, 300) down to the
    // fallen player.
    assert_eq!(c.position.y, 300_000 + (p.position.y - 300_000) * 10 / 1000);
}

#[test]
fn ledge_ids_are_unique_and_sequential() {
    let mut scene = Scene::new();
    let a = scene.add_ledge(v(0, 0));
    let b = scene.add_ledge(v(1_000, 0));
    let c = scene.add_ledge(v(2_000, 0));
    assert_eq!((a, b, c), (0, 1, 2));
    assert_eq!(scene.ledges.len(), 3);
    assert!(scene.ledges[0].id != scene.ledges[1].id);
    assert!(scene.ledges[1].id != scene.ledges[2].id);
}

#[test]
fn initial_player_state_is_free_fall() {
    let mut scene = Scene::new();
    scene.add_player(v(640_000, 360_000));
    let p = scene.player.expect("player present");
    assert_eq!(p.position, v(640_000, 360_000));
    assert_eq!(p.velocity, v(0, 0));
    assert!(!p.attached);
    assert!(!p.swinging);
    assert!(p.attached_ledge_id.is_none());
    assert_eq!(p.closest_distance, i64::MAX);
}
