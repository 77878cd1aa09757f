//! Operations on 3-vectors of fixed-point scalars.
//!
//! Vectors are plain `(i64, i64, i64)` tuples, as the camera state holds
//! them; every operation's result is pinned exactly by a spec twin built
//! from the scalar twins in [`crate::fx`].

use vstd::prelude::*;
use crate::fx::{
    abs_int, fx_add, fx_in_range, fx_mul, fx_sub, fx_clip, i128_trunc_div, isqrt_u128, spec_clip,
    spec_fx_add, spec_fx_mul, spec_fx_sub, spec_sqrt_floor, spec_trunc_div,
    lemma_sqrt_floor_bounds, FX_LIMIT, FX_ONE,
};

verus! {

pub open spec fn vec3_in_range(v: (i64, i64, i64)) -> bool {
    fx_in_range(v.0) && fx_in_range(v.1) && fx_in_range(v.2)
}

pub open spec fn spec_dot3(a: (int, int, int), b: (int, int, int)) -> int {
    spec_fx_add(
        spec_fx_add(spec_fx_mul(a.0, b.0), spec_fx_mul(a.1, b.1)),
        spec_fx_mul(a.2, b.2),
    )
}

pub open spec fn spec_cross3(a: (int, int, int), b: (int, int, int)) -> (int, int, int) {
    (
        spec_fx_sub(spec_fx_mul(a.1, b.2), spec_fx_mul(a.2, b.1)),
        spec_fx_sub(spec_fx_mul(a.2, b.0), spec_fx_mul(a.0, b.2)),
        spec_fx_sub(spec_fx_mul(a.0, b.1), spec_fx_mul(a.1, b.0)),
    )
}

pub open spec fn view3(v: (i64, i64, i64)) -> (int, int, int) {
    (v.0 as int, v.1 as int, v.2 as int)
}

/// The squared length of a vector, without any saturation.
pub open spec fn spec_norm_sq(v: (int, int, int)) -> int {
    v.0 * v.0 + v.1 * v.1 + v.2 * v.2
}

/// The length of a vector: the floor square root of the squared length,
/// in the same fixed-point scale as the components.
pub open spec fn spec_mag3(v: (int, int, int)) -> int {
    spec_sqrt_floor(spec_norm_sq(v) as nat) as int
}

/// A vector scaled to unit length; the zero vector stays zero.
pub open spec fn spec_normalize3(v: (int, int, int)) -> (int, int, int) {
    let m = spec_mag3(v);
    if m == 0 {
        (0, 0, 0)
    } else {
        (
            spec_clip(spec_trunc_div(v.0 * FX_ONE as int, m)),
            spec_clip(spec_trunc_div(v.1 * FX_ONE as int, m)),
            spec_clip(spec_trunc_div(v.2 * FX_ONE as int, m)),
        )
    }
}

pub fn dot3(a: (i64, i64, i64), b: (i64, i64, i64)) -> (r: i64)
    requires
        vec3_in_range(a),
        vec3_in_range(b),
    ensures
        r as int == spec_dot3(view3(a), view3(b)),
        fx_in_range(r),
{
    fx_add(fx_add(fx_mul(a.0, b.0), fx_mul(a.1, b.1)), fx_mul(a.2, b.2))
}

pub fn cross3(a: (i64, i64, i64), b: (i64, i64, i64)) -> (r: (i64, i64, i64))
    requires
        vec3_in_range(a),
        vec3_in_range(b),
    ensures
        view3(r) == spec_cross3(view3(a), view3(b)),
        vec3_in_range(r),
{
    (
        fx_sub(fx_mul(a.1, b.2), fx_mul(a.2, b.1)),
        fx_sub(fx_mul(a.2, b.0), fx_mul(a.0, b.2)),
        fx_sub(fx_mul(a.0, b.1), fx_mul(a.1, b.0)),
    )
}

/// Both components of a vector scaled by the same scalar.
pub fn scale3(v: (i64, i64, i64), k: i64) -> (r: (i64, i64, i64))
    requires
        vec3_in_range(v),
        fx_in_range(k),
    ensures
        r.0 as int == spec_fx_mul(v.0 as int, k as int),
        r.1 as int == spec_fx_mul(v.1 as int, k as int),
        r.2 as int == spec_fx_mul(v.2 as int, k as int),
        vec3_in_range(r),
{
    (fx_mul(v.0, k), fx_mul(v.1, k), fx_mul(v.2, k))
}

pub fn mag3(v: (i64, i64, i64)) -> (r: i64)
    requires
        vec3_in_range(v),
    ensures
        r as int == spec_mag3(view3(v)),
        0 <= r <= 1_800_000_000_000,
{
    proof {
        assert(v.0 as int * v.0 as int <= FX_LIMIT as int * FX_LIMIT as int
            && v.0 as int * v.0 as int >= 0
            && v.1 as int * v.1 as int <= FX_LIMIT as int * FX_LIMIT as int
            && v.1 as int * v.1 as int >= 0
            && v.2 as int * v.2 as int <= FX_LIMIT as int * FX_LIMIT as int
            && v.2 as int * v.2 as int >= 0) by (nonlinear_arith)
            requires
                -FX_LIMIT <= v.0 <= FX_LIMIT,
                -FX_LIMIT <= v.1 <= FX_LIMIT,
                -FX_LIMIT <= v.2 <= FX_LIMIT,
        ;
    }
    let sq: i128 = (v.0 as i128) * (v.0 as i128) + (v.1 as i128) * (v.1 as i128)
        + (v.2 as i128) * (v.2 as i128);
    let n: u128 = sq as u128;
    let root: u128 = isqrt_u128(n);
    proof {
        lemma_sqrt_floor_bounds(n as nat);
        assert(root <= 1_800_000_000_000) by (nonlinear_arith)
            requires
                root * root <= n,
                n <= 3 * (FX_LIMIT as int * FX_LIMIT as int),
                FX_LIMIT == 1_000_000_000_000i64,
        ;
    }
    root as i64
}

/// For every vector, each component of its normalization lies within
/// the unit scale: a coarse, exact consequence of unit scaling that
/// holds for all directions.  The finer unit-length bound, within
/// millionths for magnitudes of at least one unit, stands in
/// [`crate::laws`].
pub proof fn lemma_normalize3_in_unit_scale(v: (int, int, int))
    ensures
        -(FX_ONE as int) <= spec_normalize3(v).0 <= FX_ONE as int,
        -(FX_ONE as int) <= spec_normalize3(v).1 <= FX_ONE as int,
        -(FX_ONE as int) <= spec_normalize3(v).2 <= FX_ONE as int,
{
    let q = spec_norm_sq(v);
    let m = spec_mag3(v);
    assert(v.0 * v.0 >= 0 && v.1 * v.1 >= 0 && v.2 * v.2 >= 0) by (nonlinear_arith);
    crate::fx::lemma_sqrt_floor_bounds(q as nat);
    if m == 0 {
    } else {
        lemma_normalize_comp_bound(v.0, q, m);
        lemma_normalize_comp_bound(v.1, q, m);
        lemma_normalize_comp_bound(v.2, q, m);
    }
}

/// One component: `|c| <= m` because `c * c <= q < (m + 1)^2`, so the
/// truncated quotient `c * FX_ONE / m` cannot exceed the unit scale.
proof fn lemma_normalize_comp_bound(c: int, q: int, m: int)
    requires
        m >= 1,
        c * c <= q,
        q < (m + 1) * (m + 1),
    ensures
        -(FX_ONE as int) <= spec_clip(spec_trunc_div(c * FX_ONE as int, m)) <= FX_ONE as int,
{
    assert(abs_int(c) <= m) by (nonlinear_arith)
        requires
            c * c <= q,
            q < (m + 1) * (m + 1),
            m >= 1,
    ;
    let a = abs_int(c) * FX_ONE as int;
    assert(a >= 0 && a <= m * FX_ONE as int) by (nonlinear_arith)
        requires
            0 <= abs_int(c) <= m,
            a == abs_int(c) * FX_ONE as int,
    ;
    vstd::arithmetic::div_mod::lemma_div_is_ordered(a, m * FX_ONE as int, m);
    vstd::arithmetic::div_mod::lemma_div_multiples_vanish(FX_ONE as int, m);
    assert(a / m <= FX_ONE as int);
    vstd::arithmetic::div_mod::lemma_div_pos_is_pos(a, m);
    assert(abs_int(c * FX_ONE as int) == a) by (nonlinear_arith)
        requires
            a == abs_int(c) * FX_ONE as int,
    ;
}

/// Scale a vector to unit length; the zero vector is left as zero, a
/// deliberate total stand-in for the division the length formula cannot do.
pub fn normalize3(v: (i64, i64, i64)) -> (r: (i64, i64, i64))
    requires
        vec3_in_range(v),
    ensures
        view3(r) == spec_normalize3(view3(v)),
        vec3_in_range(r),
{
    let m: i64 = mag3(v);
    if m == 0 {
        (0, 0, 0)
    } else {
        (
            fx_clip(i128_trunc_div((v.0 as i128) * (FX_ONE as i128), m as i128)),
            fx_clip(i128_trunc_div((v.1 as i128) * (FX_ONE as i128), m as i128)),
            fx_clip(i128_trunc_div((v.2 as i128) * (FX_ONE as i128), m as i128)),
        )
    }
}

} // verus!
