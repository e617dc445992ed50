//! The physics integrator and the pendulum-style swing motion.
//!
//! One tick applies, in this order: the tangential velocity overwrite while
//! swinging, then gravity while detached, then damping while swinging, then
//! a single explicit-Euler position update from the settled velocity. The
//! damping-before-integration ordering is the deterministic policy this
//! crate commits to.

use vstd::prelude::*;

use crate::fixp::{
    abs_int, div_trunc, is_sqrt_floor, lemma_div_trunc_bounds, lemma_div_trunc_quotient_bound,
    mul_div_trunc, mul_milli, mul_milli_spec,
};
use crate::structs::Player;
use crate::vec2::{dist, dist_fx, dist_sq, pos_ok, Vec2};

verus! {

/// Horizontal component of the tangential swing velocity: the perpendicular
/// of the unit direction from player to attach point, scaled to
/// `SWING_SPEED`, all in exact fixed-point arithmetic.
pub open spec fn swing_vel_x(pos: Vec2, ap: Vec2) -> int {
    div_trunc((ap.y - pos.y) * (crate::SWING_SPEED as int), dist_fx(pos, ap))
}

/// Vertical component of the tangential swing velocity.
pub open spec fn swing_vel_y(pos: Vec2, ap: Vec2) -> int {
    div_trunc(-(ap.x - pos.x) * (crate::SWING_SPEED as int), dist_fx(pos, ap))
}

/// Velocity component after the gravity step: gravity pulls only while the
/// player is not attached.
pub open spec fn grav_vel_y(vy: int, attached: bool, dt: int) -> int {
    if !attached {
        vy + mul_milli_spec(crate::GRAVITY as int, dt)
    } else {
        vy
    }
}

/// Velocity component after the damping step: multiplicative damping each
/// swinging tick, identity otherwise.
pub open spec fn damp_component(v: int, swinging: bool) -> int {
    if swinging {
        mul_milli_spec(v, crate::DAMPING as int)
    } else {
        v
    }
}

/// Explicit-Euler position step.
pub open spec fn integrate_pos(p: int, v: int, dt: int) -> int {
    p + mul_milli_spec(v, dt)
}

/// A squared component never exceeds the squared norm, so the component is
/// bounded by the root floor of the norm.
proof fn lemma_component_le_root(d: int, n: int, len: int)
    requires
        d * d <= n,
        is_sqrt_floor(n, len),
    ensures
        -len <= d <= len,
{
    if d > len {
        assert((len + 1) * (len + 1) <= d * d) by (nonlinear_arith)
            requires
                0 <= len + 1 <= d,
        ;
    }
    if d < -len {
        assert((len + 1) * (len + 1) <= d * d) by (nonlinear_arith)
            requires
                0 <= len + 1 <= -d,
        ;
    }
}

/// The tangential velocity components stay within the swing speed: each
/// perpendicular component is bounded by the rope length it is divided by.
proof fn lemma_swing_component_bound(d: int, n: int, len: int, s: int)
    requires
        d * d <= n,
        is_sqrt_floor(n, len),
        len >= 1,
        s >= 0,
    ensures
        -s <= div_trunc(d * s, len) <= s,
{
    lemma_component_le_root(d, n, len);
    assert(-(s * len) <= d * s <= s * len) by (nonlinear_arith)
        requires
            -len <= d <= len,
            s >= 0,
    ;
    lemma_div_trunc_quotient_bound(d * s, len, s);
}

/// The swing motion stage of a tick (the pendulum approximation): while
/// swinging and attached, the velocity is overwritten with the tangential
/// direction scaled to `SWING_SPEED`. A degenerate direction — attach point
/// coincident with the player — keeps the previous velocity instead of
/// faulting.
pub fn player_movement_moving(player: &mut Player)
    requires
        pos_ok(old(player).position),
        pos_ok(old(player).attach_point),
    ensures
        old(player).swinging && old(player).attached && dist_sq(
            old(player).position,
            old(player).attach_point,
        ) != 0 ==> final(player).velocity.x == swing_vel_x(
            old(player).position,
            old(player).attach_point,
        ) && final(player).velocity.y == swing_vel_y(
            old(player).position,
            old(player).attach_point,
        ) && -crate::SWING_SPEED <= final(player).velocity.x <= crate::SWING_SPEED
            && -crate::SWING_SPEED <= final(player).velocity.y <= crate::SWING_SPEED,
        !(old(player).swinging && old(player).attached && dist_sq(
            old(player).position,
            old(player).attach_point,
        ) != 0) ==> final(player).velocity == old(player).velocity,
        final(player).position == old(player).position,
        final(player).attached == old(player).attached,
        final(player).swinging == old(player).swinging,
        final(player).attached_ledge_id == old(player).attached_ledge_id,
        final(player).attach_point == old(player).attach_point,
        final(player).closest_distance == old(player).closest_distance,
{
    if player.swinging && player.attached {
        let pos = player.position;
        let ap = player.attach_point;
        let dx: i64 = ap.x - pos.x;
        let dy: i64 = ap.y - pos.y;
        proof {
            assert((pos.x - ap.x) * (pos.x - ap.x) == dx * dx) by (nonlinear_arith)
                requires
                    pos.x - ap.x == -(dx as int),
            ;
            assert((pos.y - ap.y) * (pos.y - ap.y) == dy * dy) by (nonlinear_arith)
                requires
                    pos.y - ap.y == -(dy as int),
            ;
            assert(dx * dx >= 0) by (nonlinear_arith);
            assert(dy * dy >= 0) by (nonlinear_arith);
        }
        if dx != 0 || dy != 0 {
            proof {
                if dx != 0 {
                    assert(dx * dx >= 1) by (nonlinear_arith)
                        requires
                            dx != 0,
                    ;
                } else {
                    assert(dy * dy >= 1) by (nonlinear_arith)
                        requires
                            dy != 0,
                    ;
                }
            }
            let len: i64 = dist(pos, ap);
            proof {
                let n = dist_sq(pos, ap);
                assert(n >= 1);
                if len == 0 {
                    assert(n < (len as int + 1) * (len as int + 1));
                    assert((len as int + 1) * (len as int + 1) == 1) by (nonlinear_arith)
                        requires
                            len as int == 0,
                    ;
                }
                lemma_swing_component_bound(
                    dy as int,
                    n,
                    len as int,
                    crate::SWING_SPEED as int,
                );
                lemma_swing_component_bound(
                    -(dx as int),
                    n,
                    len as int,
                    crate::SWING_SPEED as int,
                );
            }
            let vx = mul_div_trunc(dy, crate::SWING_SPEED, len);
            let vy = mul_div_trunc(-dx, crate::SWING_SPEED, len);
            player.velocity = Vec2 { x: vx, y: vy };
        }
    }
}

/// The integrator stage of a tick: gravity while detached, damping while
/// swinging, then one explicit-Euler position step from the settled
/// velocity. `dt` is the frame timestep in thousandths of a second.
pub fn apply_gravity_and_motion(player: &mut Player, dt: i64)
    requires
        0 <= dt <= crate::DT_MAX,
        pos_ok(old(player).position),
        -2 * crate::VEL_MAX <= old(player).velocity.x <= 2 * crate::VEL_MAX,
        -2 * crate::VEL_MAX <= old(player).velocity.y <= 2 * crate::VEL_MAX,
    ensures
        final(player).velocity.x == damp_component(
            old(player).velocity.x as int,
            old(player).swinging,
        ),
        final(player).velocity.y == damp_component(
            grav_vel_y(old(player).velocity.y as int, old(player).attached, dt as int),
            old(player).swinging,
        ),
        final(player).position.x == integrate_pos(
            old(player).position.x as int,
            final(player).velocity.x as int,
            dt as int,
        ),
        final(player).position.y == integrate_pos(
            old(player).position.y as int,
            final(player).velocity.y as int,
            dt as int,
        ),
        -4 * crate::POS_MAX <= final(player).position.x <= 4 * crate::POS_MAX,
        -4 * crate::POS_MAX <= final(player).position.y <= 4 * crate::POS_MAX,
        final(player).attached == old(player).attached,
        final(player).swinging == old(player).swinging,
        final(player).attached_ledge_id == old(player).attached_ledge_id,
        final(player).attach_point == old(player).attach_point,
        final(player).closest_distance == old(player).closest_distance,
{
    if !player.attached {
        proof {
            lemma_div_trunc_quotient_bound(
                crate::GRAVITY as int * dt as int,
                crate::SCALE as int,
                2_008_000,
            );
        }
        let g = mul_milli(crate::GRAVITY, dt);
        player.velocity = Vec2 { x: player.velocity.x, y: player.velocity.y + g };
    }
    if player.swinging {
        proof {
            lemma_milli_shrinks(player.velocity.x as int, crate::DAMPING as int);
            lemma_milli_shrinks(player.velocity.y as int, crate::DAMPING as int);
        }
        player.velocity = player.velocity.scale_milli(crate::DAMPING);
    }
    proof {
        let vx = player.velocity.x as int;
        let vy = player.velocity.y as int;
        assert(-2_100_000_000_000_000_000 <= vx * dt <= 2_100_000_000_000_000_000)
            by (nonlinear_arith)
            requires
                -210_000_000_000_000 <= vx <= 210_000_000_000_000,
                0 <= dt <= 10_000,
        ;
        assert(-2_100_000_000_000_000_000 <= vy * dt <= 2_100_000_000_000_000_000)
            by (nonlinear_arith)
            requires
                -210_000_000_000_000 <= vy <= 210_000_000_000_000,
                0 <= dt <= 10_000,
        ;
        lemma_div_trunc_quotient_bound(vx * dt, crate::SCALE as int, 2_100_000_000_000_000);
        lemma_div_trunc_quotient_bound(vy * dt, crate::SCALE as int, 2_100_000_000_000_000);
    }
    let sx = mul_milli(player.velocity.x, dt);
    let sy = mul_milli(player.velocity.y, dt);
    player.position = Vec2 { x: player.position.x + sx, y: player.position.y + sy };
}

/// Damping shrinks a fixed-point value: never past it, strictly below a
/// nonzero one, and zero stays zero.
proof fn lemma_milli_shrinks(a: int, f: int)
    requires
        0 < f < crate::SCALE,
    ensures
        abs_int(mul_milli_spec(a, f)) <= abs_int(a),
        a != 0 ==> abs_int(mul_milli_spec(a, f)) < abs_int(a),
        a == 0 ==> mul_milli_spec(a, f) == 0,
{
    let m = abs_int(a);
    assert(-(m * crate::SCALE as int) <= a * f <= m * crate::SCALE as int)
        by (nonlinear_arith)
        requires
            0 < f < crate::SCALE as int,
            -m <= a <= m,
    ;
    lemma_div_trunc_quotient_bound(a * f, crate::SCALE as int, m);
    if a != 0 {
        assert(-(crate::SCALE as int * m) < a * f < crate::SCALE as int * m)
            by (nonlinear_arith)
            requires
                0 < f < crate::SCALE as int,
                -m <= a <= m,
                1 <= m,
        ;
        lemma_div_trunc_bounds(a * f, crate::SCALE as int);
        if a * f >= 0 {
            vstd::arithmetic::div_mod::lemma_multiply_divide_lt(a * f, crate::SCALE as int, m);
        } else {
            vstd::arithmetic::div_mod::lemma_multiply_divide_lt(
                -(a * f),
                crate::SCALE as int,
                m,
            );
        }
    }
}

/// A strictly smaller magnitude has a strictly smaller square.
proof fn lemma_square_lt(a: int, b: int)
    requires
        abs_int(a) < abs_int(b),
    ensures
        a * a < b * b,
{
    let ma = abs_int(a);
    let mb = abs_int(b);
    assert(a * a == ma * ma) by (nonlinear_arith)
        requires
            a == ma || a == -ma,
    ;
    assert(b * b == mb * mb) by (nonlinear_arith)
        requires
            b == mb || b == -mb,
    ;
    assert(ma * ma < mb * mb) by (nonlinear_arith)
        requires
            0 <= ma < mb,
    ;
}

/// A magnitude bound carries over to the squares.
proof fn lemma_square_le(a: int, b: int)
    requires
        abs_int(a) <= abs_int(b),
    ensures
        a * a <= b * b,
{
    let ma = abs_int(a);
    let mb = abs_int(b);
    assert(a * a == ma * ma) by (nonlinear_arith)
        requires
            a == ma || a == -ma,
    ;
    assert(b * b == mb * mb) by (nonlinear_arith)
        requires
            b == mb || b == -mb,
    ;
    assert(ma * ma <= mb * mb) by (nonlinear_arith)
        requires
            0 <= ma <= mb,
    ;
}

/// Damping strictly reduces the speed: for any damping factor strictly
/// between zero and one (in thousandths) and any nonzero velocity, the
/// damped velocity has a strictly smaller squared magnitude.
pub proof fn lemma_damping_strictly_reduces(v: Vec2, f: int)
    requires
        0 < f < crate::SCALE,
        !(v.x == 0 && v.y == 0),
    ensures
        ({
            let dx = mul_milli_spec(v.x as int, f);
            let dy = mul_milli_spec(v.y as int, f);
            dx * dx + dy * dy < v.norm_sq()
        }),
{
    let dx = mul_milli_spec(v.x as int, f);
    let dy = mul_milli_spec(v.y as int, f);
    lemma_milli_shrinks(v.x as int, f);
    lemma_milli_shrinks(v.y as int, f);
    lemma_square_le(dx, v.x as int);
    lemma_square_le(dy, v.y as int);
    if v.x != 0 {
        lemma_square_lt(dx, v.x as int);
    } else {
        lemma_square_lt(dy, v.y as int);
    }
}

} // verus!

