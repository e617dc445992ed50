//! Fixed-point scalar arithmetic on `i64` raw values.
//!
//! A raw value `r` stands for the real number `r / 1000`. Multiplying two
//! fixed-point values therefore divides the wide product by 1000, truncating
//! toward zero; lengths come from an exact integer square root. Every helper
//! here has an exact contract, so the simulation built on top is pinned down
//! to the last raw unit.

use vstd::prelude::*;

verus! {

/// Magnitude of an integer.
pub open spec fn abs_int(a: int) -> int {
    if a >= 0 {
        a
    } else {
        -a
    }
}

/// Quotient of `a / b` truncated toward zero (`b > 0`), the rounding that
/// every fixed-point operation in this crate uses.
pub open spec fn div_trunc(a: int, b: int) -> int
    recommends
        b > 0,
{
    if a >= 0 {
        a / b
    } else {
        -((-a) / b)
    }
}

/// Product of two raw fixed-point values, rescaled back to raw.
pub open spec fn mul_milli_spec(a: int, b: int) -> int {
    div_trunc(a * b, crate::SCALE as int)
}

/// Truncating division keeps the sign of the dividend and never grows a
/// magnitude.
pub proof fn lemma_div_trunc_bounds(a: int, b: int)
    requires
        b > 0,
    ensures
        abs_int(div_trunc(a, b)) <= abs_int(a),
        a >= 0 ==> div_trunc(a, b) >= 0,
        a <= 0 ==> div_trunc(a, b) <= 0,
{
    if a >= 0 {
        assert(0 <= a / b <= a) by (nonlinear_arith)
            requires
                a >= 0,
                b > 0,
        ;
    } else {
        assert(0 <= (-a) / b <= -a) by (nonlinear_arith)
            requires
                -a >= 0,
                b > 0,
        ;
    }
}

/// Dividing a smaller magnitude by the same positive divisor never gives a
/// larger magnitude.
pub proof fn lemma_div_trunc_monotonic(a: int, b: int, d: int)
    requires
        0 <= a <= b,
        d > 0,
    ensures
        div_trunc(a, d) <= div_trunc(b, d),
{
    assert(a / d <= b / d) by (nonlinear_arith)
        requires
            0 <= a <= b,
            d > 0,
    ;
}

/// A bound on the dividend in multiples of the divisor bounds the quotient.
pub proof fn lemma_div_trunc_quotient_bound(a: int, b: int, m: int)
    requires
        b > 0,
        0 <= m,
        abs_int(a) <= m * b,
    ensures
        abs_int(div_trunc(a, b)) <= m,
{
    lemma_div_trunc_bounds(a, b);
    lemma_div_trunc_monotonic(abs_int(a), m * b, b);
    vstd::arithmetic::div_mod::lemma_div_multiples_vanish(m, b);
    assert(m * b == b * m) by (nonlinear_arith);
}

/// `r` is the floor of the square root of `n`.
pub open spec fn is_sqrt_floor(n: int, r: int) -> bool {
    0 <= r && r * r <= n && n < (r + 1) * (r + 1)
}

/// Floor of the square root of a non-negative integer.
pub open spec fn sqrt_floor(n: int) -> int {
    choose|r: int| is_sqrt_floor(n, r)
}

/// At most one integer is the floor of the square root of `n`.
pub proof fn lemma_sqrt_floor_unique(n: int, r1: int, r2: int)
    requires
        is_sqrt_floor(n, r1),
        is_sqrt_floor(n, r2),
    ensures
        r1 == r2,
{
    if r1 < r2 {
        assert((r1 + 1) * (r1 + 1) <= r2 * r2) by (nonlinear_arith)
            requires
                0 <= r1 + 1 <= r2,
        ;
    }
    if r2 < r1 {
        assert((r2 + 1) * (r2 + 1) <= r1 * r1) by (nonlinear_arith)
            requires
                0 <= r2 + 1 <= r1,
        ;
    }
}

/// A witness for `is_sqrt_floor` pins down `sqrt_floor`.
pub proof fn lemma_sqrt_floor_is(n: int, r: int)
    requires
        is_sqrt_floor(n, r),
    ensures
        sqrt_floor(n) == r,
{
    let w = choose|x: int| is_sqrt_floor(n, x);
    lemma_sqrt_floor_unique(n, w, r);
}

/// Integer square root: the largest `r` with `r * r <= n`.
pub fn isqrt(n: u128) -> (r: u64)
    ensures
        is_sqrt_floor(n as int, r as int),
        r == sqrt_floor(n as int),
{
    let mut lo: u64 = 0;
    let mut hi: u64 = if n >= 0xffff_ffff_ffff_ffff {
        0xffff_ffff_ffff_ffff
    } else {
        n as u64
    };
    proof {
        assert((n as int) < ((hi as int) + 1) * ((hi as int) + 1)) by (nonlinear_arith)
            requires
                hi as int == 0xffff_ffff_ffff_ffff || (0 <= n as int == hi as int),
                n as int <= 0xffff_ffff_ffff_ffff_ffff_ffff_ffff_ffff,
        ;
    }
    while lo < hi
        invariant
            lo <= hi,
            (lo as int) * (lo as int) <= n as int,
            (n as int) < ((hi as int) + 1) * ((hi as int) + 1),
        decreases hi - lo,
    {
        let mid: u64 = hi - (hi - lo) / 2;
        proof {
            assert((mid as int) * (mid as int)
                <= 0xffff_ffff_ffff_ffff_ffff_ffff_ffff_ffff) by (nonlinear_arith);
        }
        let sq: u128 = (mid as u128) * (mid as u128);
        if sq <= n {
            lo = mid;
        } else {
            hi = mid - 1;
        }
    }
    proof {
        lemma_sqrt_floor_is(n as int, lo as int);
    }
    lo
}

/// Truncating division on machine integers.
pub fn div_trunc_i64(a: i64, b: i64) -> (r: i64)
    requires
        b >= 1,
        -0x7fff_ffff_ffff_ffff <= a,
    ensures
        r == div_trunc(a as int, b as int),
{
    if a >= 0 {
        let q: u64 = (a as u64) / (b as u64);
        q as i64
    } else {
        let am: u64 = (-a) as u64;
        let q: u64 = am / (b as u64);
        proof {
            lemma_div_trunc_bounds(a as int, b as int);
        }
        -(q as i64)
    }
}

/// Truncated `(a * b) / c`, with the product taken at full width.
pub fn mul_div_trunc(a: i64, b: i64, c: i64) -> (r: i64)
    requires
        c >= 1,
        -0x7fff_ffff_ffff_ffff <= div_trunc(a as int * b as int, c as int)
            <= 0x7fff_ffff_ffff_ffff,
    ensures
        r == div_trunc(a as int * b as int, c as int),
{
    proof {
        assert(abs_int(a as int * b as int)
            <= 0x4000_0000_0000_0000_0000_0000_0000_0000) by (nonlinear_arith);
        lemma_div_trunc_bounds(a as int * b as int, c as int);
    }
    let p: i128 = (a as i128) * (b as i128);
    let neg: bool = p < 0;
    let mag: u128 = if neg {
        (-p) as u128
    } else {
        p as u128
    };
    let q: u128 = mag / (c as u128);
    if neg {
        -(q as i64)
    } else {
        q as i64
    }
}

/// Fixed-point multiply: `(a * b) / 1000`, truncated toward zero.
pub fn mul_milli(a: i64, b: i64) -> (r: i64)
    requires
        -0x7fff_ffff_ffff_ffff <= mul_milli_spec(a as int, b as int)
            <= 0x7fff_ffff_ffff_ffff,
    ensures
        r == mul_milli_spec(a as int, b as int),
{
    mul_div_trunc(a, b, crate::SCALE)
}

} // verus!
