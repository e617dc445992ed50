//! Plane vectors with fixed-point coordinates.
//!
//! The original scene keeps a third coordinate fixed at zero purely for
//! sprite layering, so the simulation works in the plane. Distances are
//! compared through exact squared norms; a fixed-point length comes from the
//! integer square root of the squared norm.

use vstd::prelude::*;

use crate::fixp::{abs_int, is_sqrt_floor, isqrt, mul_milli, mul_milli_spec, sqrt_floor};

verus! {

/// A 2D vector; each coordinate is a raw fixed-point value.
#[derive(Clone, Copy, PartialEq, Eq, Structural, Debug)]
pub struct Vec2 {
    pub x: i64,
    pub y: i64,
}

/// Squared Euclidean distance between two points, exact.
pub open spec fn dist_sq(a: Vec2, b: Vec2) -> int {
    (a.x - b.x) * (a.x - b.x) + (a.y - b.y) * (a.y - b.y)
}

/// Fixed-point Euclidean distance: floor of the square root of the exact
/// squared distance between the raw coordinates.
pub open spec fn dist_fx(a: Vec2, b: Vec2) -> int {
    sqrt_floor(dist_sq(a, b))
}

/// Both coordinates lie within `crate::COORD_MAX`, the bound under which all
/// per-tick arithmetic stays exact in 64 bits.
pub open spec fn in_range(v: Vec2) -> bool {
    -crate::COORD_MAX <= v.x <= crate::COORD_MAX && -crate::COORD_MAX <= v.y
        <= crate::COORD_MAX
}

/// A position a tick accepts: both coordinates within `crate::POS_MAX`.
pub open spec fn pos_ok(v: Vec2) -> bool {
    -crate::POS_MAX <= v.x <= crate::POS_MAX && -crate::POS_MAX <= v.y <= crate::POS_MAX
}

/// A velocity a tick accepts: both components within `crate::VEL_MAX`.
pub open spec fn vel_ok(v: Vec2) -> bool {
    -crate::VEL_MAX <= v.x <= crate::VEL_MAX && -crate::VEL_MAX <= v.y <= crate::VEL_MAX
}

impl Vec2 {
    /// The origin.
    pub fn zero() -> (r: Vec2)
        ensures
            r.x == 0,
            r.y == 0,
    {
        Vec2 { x: 0, y: 0 }
    }

    /// Squared length of the vector, exact.
    pub open spec fn norm_sq(self) -> int {
        self.x * self.x + self.y * self.y
    }

    /// Componentwise sum.
    pub fn add(self, o: Vec2) -> (r: Vec2)
        requires
            i64::MIN <= self.x + o.x <= i64::MAX,
            i64::MIN <= self.y + o.y <= i64::MAX,
        ensures
            r.x == self.x + o.x,
            r.y == self.y + o.y,
    {
        Vec2 { x: self.x + o.x, y: self.y + o.y }
    }

    /// Componentwise difference.
    pub fn sub(self, o: Vec2) -> (r: Vec2)
        requires
            i64::MIN <= self.x - o.x <= i64::MAX,
            i64::MIN <= self.y - o.y <= i64::MAX,
        ensures
            r.x == self.x - o.x,
            r.y == self.y - o.y,
    {
        Vec2 { x: self.x - o.x, y: self.y - o.y }
    }

    /// The in-plane perpendicular, the cross product of `self` (extended by a
    /// zero third coordinate) with the out-of-plane unit axis.
    pub fn perp(self) -> (r: Vec2)
        requires
            self.x > i64::MIN,
        ensures
            r.x == self.y,
            r.y == -self.x,
    {
        Vec2 { x: self.y, y: -self.x }
    }

    /// Componentwise fixed-point scaling by the raw factor `k`.
    pub fn scale_milli(self, k: i64) -> (r: Vec2)
        requires
            -0x7fff_ffff_ffff_ffff <= mul_milli_spec(self.x as int, k as int)
                <= 0x7fff_ffff_ffff_ffff,
            -0x7fff_ffff_ffff_ffff <= mul_milli_spec(self.y as int, k as int)
                <= 0x7fff_ffff_ffff_ffff,
        ensures
            r.x == mul_milli_spec(self.x as int, k as int),
            r.y == mul_milli_spec(self.y as int, k as int),
    {
        Vec2 { x: mul_milli(self.x, k), y: mul_milli(self.y, k) }
    }
}

/// Exact squared distance, computed at full width.
pub fn dist_sq_wide(a: Vec2, b: Vec2) -> (r: u128)
    requires
        in_range(a),
        in_range(b),
    ensures
        r == dist_sq(a, b),
{
    let dx: i128 = (a.x as i128) - (b.x as i128);
    let dy: i128 = (a.y as i128) - (b.y as i128);
    let dxm: u128 = if dx < 0 {
        (-dx) as u128
    } else {
        dx as u128
    };
    let dym: u128 = if dy < 0 {
        (-dy) as u128
    } else {
        dy as u128
    };
    proof {
        lemma_abs_square(dx as int, dxm as int);
        lemma_abs_square(dy as int, dym as int);
        lemma_square_bound(dxm as int, 2 * crate::COORD_MAX as int);
        lemma_square_bound(dym as int, 2 * crate::COORD_MAX as int);
    }
    dxm * dxm + dym * dym
}

/// Squaring a magnitude squares the value.
proof fn lemma_abs_square(a: int, m: int)
    requires
        m == abs_int(a),
    ensures
        m * m == a * a,
{
    assert(m * m == a * a) by (nonlinear_arith)
        requires
            m == a || m == -a,
    ;
}

/// A bound on a non-negative value bounds its square.
proof fn lemma_square_bound(a: int, m: int)
    requires
        0 <= a <= m,
    ensures
        a * a <= m * m,
{
    assert(a * a <= m * m) by (nonlinear_arith)
        requires
            0 <= a <= m,
    ;
}

/// If `n` lies strictly below `m * m`, its root floor lies strictly below
/// `m`.
pub proof fn lemma_sqrt_floor_below(n: int, r: int, m: int)
    requires
        is_sqrt_floor(n, r),
        0 <= m,
        n < m * m,
    ensures
        r < m,
{
    if r >= m {
        assert(m * m <= r * r) by (nonlinear_arith)
            requires
                0 <= m <= r,
        ;
    }
}

/// Fixed-point Euclidean distance between two points.
pub fn dist(a: Vec2, b: Vec2) -> (r: i64)
    requires
        in_range(a),
        in_range(b),
    ensures
        r == dist_fx(a, b),
        is_sqrt_floor(dist_sq(a, b), r as int),
        0 <= r <= 4 * crate::COORD_MAX,
{
    let n: u128 = dist_sq_wide(a, b);
    let s: u64 = isqrt(n);
    proof {
        let dxv: int = a.x as int - b.x as int;
        let dyv: int = a.y as int - b.y as int;
        let m: int = 4 * (crate::COORD_MAX as int) + 1;
        assert(dxv * dxv + dyv * dyv < m * m) by (nonlinear_arith)
            requires
                -0x2000_0000_0000_0000 <= dxv <= 0x2000_0000_0000_0000,
                -0x2000_0000_0000_0000 <= dyv <= 0x2000_0000_0000_0000,
                m == 0x4000_0000_0000_0001,
        ;
        lemma_sqrt_floor_below(n as int, s as int, m);
    }
    s as i64
}

} // verus!
