//! The crate-level laws: properties that relate several operations,
//! stated and proved over the same spec functions the operations'
//! own contracts use.

use vstd::prelude::*;
use crate::camera::{
    spec_forward, spec_perspective, spec_rotate_comp, spec_side, spec_up_axis, spec_update, CamV,
    CameraState,
};
use crate::entity::{ModelEntity, spec_entity_vertices};
use crate::fx::{abs_int, lemma_sqrt_floor_unique, spec_trunc_div, FX_ONE, FX_TWO_PI};
use crate::model::spec_model_vertices;
use vstd::arithmetic::div_mod::{lemma_fundamental_div_mod, lemma_mod_bound};
use crate::vec3::spec_dot3;

verus! {

/// The projection is a pure function of the viewport inputs: two camera
/// states with the same width and height derive the same perspective
/// matrix, so repeated calls with an unchanged aspect ratio are
/// identical.
pub proof fn lemma_perspective_depends_on_viewport_only(a: CameraState, b: CameraState)
    requires
        a@.width == b@.width,
        a@.height == b@.height,
    ensures
        spec_perspective(a@.width, a@.height) == spec_perspective(b@.width, b@.height),
{
}

/// The vertex count of each entity, summed in order.
pub open spec fn spec_total_vertex_count(g: Seq<ModelEntity>) -> int
    decreases g.len(),
{
    if g.len() == 0 {
        0
    } else {
        spec_total_vertex_count(g.drop_last()) + spec_entity_vertices(g.last()).len()
    }
}

/// Cache coherence, counted: the derived buffer always holds exactly
/// the sum of the entities' own vertex counts, whatever the sequence
/// of pushes and accessor calls produced it.
pub proof fn lemma_model_vertex_count(g: Seq<ModelEntity>)
    ensures
        spec_model_vertices(g).len() == spec_total_vertex_count(g),
    decreases g.len(),
{
    let f = |e: ModelEntity| spec_entity_vertices(e);
    if g.len() == 0 {
        assert(g.flat_map(f) =~= Seq::<crate::point::Vertex>::empty());
    } else {
        let head = g.drop_last();
        lemma_model_vertex_count(head);
        head.lemma_flat_map_push(f, g.last());
        assert(head.push(g.last()) =~= g);
    }
}

/// After any integration step the rotation lies in `[0, 2*pi)` on every
/// axis: whatever state a sequence of updates starts from, each update
/// ends wrapped, so the bound holds after any sequence of calls.
pub proof fn lemma_update_wraps_rotation(c: CamV, dist: int)
    ensures
        0 <= spec_update(c, dist).rotation.0 < FX_TWO_PI as int,
        0 <= spec_update(c, dist).rotation.1 < FX_TWO_PI as int,
        0 <= spec_update(c, dist).rotation.2 < FX_TWO_PI as int,
{
    let r = (
        spec_rotate_comp(c.rotation.0, dist, c.rotating.0),
        spec_rotate_comp(c.rotation.1, dist, c.rotating.1),
        spec_rotate_comp(c.rotation.2, dist, c.rotating.2),
    );
    lemma_mod_bound(r.0, FX_TWO_PI as int);
    lemma_mod_bound(r.1, FX_TWO_PI as int);
    lemma_mod_bound(r.2, FX_TWO_PI as int);
}

/// After any integration step the position lies in the `[-1, 1]` box on
/// every axis, whatever positions and intents came before.
pub proof fn lemma_update_clamps_position(c: CamV, dist: int)
    ensures
        -(FX_ONE as int) <= spec_update(c, dist).position.0 <= FX_ONE as int,
        -(FX_ONE as int) <= spec_update(c, dist).position.1 <= FX_ONE as int,
        -(FX_ONE as int) <= spec_update(c, dist).position.2 <= FX_ONE as int,
{
}

/// The arithmetic heart of the unit-length bound: for magnitudes `m` of
/// at least one unit, the summed, twice-truncated squares of the
/// normalized components land within `[-9, +2]` millionths of one.
/// `a0..a2` are the component magnitudes, `d0..d2` the scaled quotients
/// `a * FX_ONE / m`, and `u0..u2` the squared quotients `d * d / FX_ONE`,
/// each characterized by its division inequalities.
#[verifier::spinoff_prover]
proof fn lemma_unit_sum_bounds(
    q: int,
    m: int,
    a0: int,
    a1: int,
    a2: int,
    d0: int,
    d1: int,
    d2: int,
    u0: int,
    u1: int,
    u2: int,
)
    requires
        m >= 1_000_000,
        a0 >= 0 && a1 >= 0 && a2 >= 0,
        q == a0 * a0 + a1 * a1 + a2 * a2,
        m * m <= q,
        q < (m + 1) * (m + 1),
        d0 >= 0 && d0 * m <= a0 * 1_000_000 && a0 * 1_000_000 < (d0 + 1) * m,
        d1 >= 0 && d1 * m <= a1 * 1_000_000 && a1 * 1_000_000 < (d1 + 1) * m,
        d2 >= 0 && d2 * m <= a2 * 1_000_000 && a2 * 1_000_000 < (d2 + 1) * m,
        u0 >= 0 && u0 * 1_000_000 <= d0 * d0 && d0 * d0 < (u0 + 1) * 1_000_000,
        u1 >= 0 && u1 * 1_000_000 <= d1 * d1 && d1 * d1 < (u1 + 1) * 1_000_000,
        u2 >= 0 && u2 * 1_000_000 <= d2 * d2 && d2 * d2 < (u2 + 1) * 1_000_000,
    ensures
        1_000_000 - 9 <= u0 + u1 + u2 <= 1_000_000 + 2,
{
    let sq = 1_000_000_000_000int;
    assert(a0 <= m && a1 <= m && a2 <= m) by (nonlinear_arith)
        requires
            a0 >= 0 && a1 >= 0 && a2 >= 0,
            m >= 1,
            a0 * a0 + a1 * a1 + a2 * a2 == q,
            a0 * a0 <= q - a1 * a1 - a2 * a2,
            0 <= a1 * a1 && 0 <= a2 * a2 && 0 <= a0 * a0,
            q < (m + 1) * (m + 1),
    ;
    assert(d0 <= 1_000_000 && d1 <= 1_000_000 && d2 <= 1_000_000) by (nonlinear_arith)
        requires
            m >= 1,
            d0 * m <= a0 * 1_000_000 && a0 <= m && d0 >= 0,
            d1 * m <= a1 * 1_000_000 && a1 <= m && d1 >= 0,
            d2 * m <= a2 * 1_000_000 && a2 <= m && d2 >= 0,
    ;
    let sd = d0 * d0 + d1 * d1 + d2 * d2;
    // Upper bound: squaring each quotient inequality and summing puts
    // `sd * m * m` under `q * FX_ONE^2`, and the magnitude bracket then
    // caps `sd` at `FX_ONE^2 + 2 * FX_ONE`.
    assert((d0 * d0) * (m * m) <= (a0 * a0) * sq) by (nonlinear_arith)
        requires
            sq == 1_000_000_000_000int,
            0 <= d0 * m,
            d0 * m <= a0 * 1_000_000,
    ;
    assert((d1 * d1) * (m * m) <= (a1 * a1) * sq) by (nonlinear_arith)
        requires
            sq == 1_000_000_000_000int,
            0 <= d1 * m,
            d1 * m <= a1 * 1_000_000,
    ;
    assert((d2 * d2) * (m * m) <= (a2 * a2) * sq) by (nonlinear_arith)
        requires
            sq == 1_000_000_000_000int,
            0 <= d2 * m,
            d2 * m <= a2 * 1_000_000,
    ;
    assert(sd * (m * m) <= q * sq) by (nonlinear_arith)
        requires
            sd == d0 * d0 + d1 * d1 + d2 * d2,
            q == a0 * a0 + a1 * a1 + a2 * a2,
            (d0 * d0) * (m * m) <= (a0 * a0) * sq,
            (d1 * d1) * (m * m) <= (a1 * a1) * sq,
            (d2 * d2) * (m * m) <= (a2 * a2) * sq,
    ;
    assert(q <= m * m + 2 * m) by (nonlinear_arith)
        requires
            q < (m + 1) * (m + 1),
    ;
    assert(sd <= 1_000_002_000_000) by (nonlinear_arith)
        requires
            sq == 1_000_000_000_000int,
            sd * (m * m) <= q * sq,
            q <= m * m + 2 * m,
            m >= 1_000_000,
            sd >= 0,
    ;
    assert((u0 + u1 + u2) * 1_000_000 <= sd);
    assert(u0 + u1 + u2 <= 1_000_002);
    // Lower bound: the opposite squaring puts `q * FX_ONE^2` under the
    // incremented quotients, and `m * m <= q` turns that into a floor
    // on `sd`, hence on the summed squares.
    assert((a0 * a0) * sq <= ((d0 + 1) * (d0 + 1)) * (m * m)) by (nonlinear_arith)
        requires
            sq == 1_000_000_000_000int,
            0 <= a0 * 1_000_000,
            a0 * 1_000_000 < (d0 + 1) * m,
    ;
    assert((a1 * a1) * sq <= ((d1 + 1) * (d1 + 1)) * (m * m)) by (nonlinear_arith)
        requires
            sq == 1_000_000_000_000int,
            0 <= a1 * 1_000_000,
            a1 * 1_000_000 < (d1 + 1) * m,
    ;
    assert((a2 * a2) * sq <= ((d2 + 1) * (d2 + 1)) * (m * m)) by (nonlinear_arith)
        requires
            sq == 1_000_000_000_000int,
            0 <= a2 * 1_000_000,
            a2 * 1_000_000 < (d2 + 1) * m,
    ;
    let sd1 = d0 + d1 + d2;
    assert(q * sq <= (sd + 2 * sd1 + 3) * (m * m)) by (nonlinear_arith)
        requires
            sd == d0 * d0 + d1 * d1 + d2 * d2,
            sd1 == d0 + d1 + d2,
            q == a0 * a0 + a1 * a1 + a2 * a2,
            (a0 * a0) * sq <= ((d0 + 1) * (d0 + 1)) * (m * m),
            (a1 * a1) * sq <= ((d1 + 1) * (d1 + 1)) * (m * m),
            (a2 * a2) * sq <= ((d2 + 1) * (d2 + 1)) * (m * m),
    ;
    assert(sq <= sd + 2 * sd1 + 3) by (nonlinear_arith)
        requires
            m * m <= q,
            q * sq <= (sd + 2 * sd1 + 3) * (m * m),
            m >= 1,
            sq >= 0,
            sd + 2 * sd1 + 3 >= 0,
    ;
    assert(sd1 <= 3_000_000);
    assert(sd >= 1_000_000_000_000 - 6_000_000 - 3);
    assert(sd <= (u0 + u1 + u2 + 3) * 1_000_000 - 3);
    assert(u0 + u1 + u2 >= 1_000_000 - 9);
}

/// The truncated scaled quotient of one component: its magnitude form,
/// its division bracket, and its sign relative to the component.
proof fn lemma_trunc_div_char(c: int, m: int)
    requires
        m >= 1,
    ensures
        ({
            let a = abs_int(c);
            let d = (a * FX_ONE as int) / m;
            &&& a >= 0
            &&& a * a == c * c
            &&& d >= 0
            &&& d * m <= a * FX_ONE as int
            &&& (a * FX_ONE as int) < (d + 1) * m
            &&& spec_trunc_div(c * FX_ONE as int, m) == (if c >= 0 { d } else { -d })
        }),
{
    let a = abs_int(c);
    let x = c * FX_ONE as int;
    if c >= 0 {
        assert(x >= 0 && x == a * FX_ONE as int && a * a == c * c) by (nonlinear_arith)
            requires
                c >= 0,
                a == c,
                x == c * 1_000_000,
        ;
    } else {
        assert(x < 0 && -x == a * FX_ONE as int && a * a == c * c) by (nonlinear_arith)
            requires
                c < 0,
                a == -c,
                x == c * 1_000_000,
        ;
    }
    let ax = a * FX_ONE as int;
    let d = ax / m;
    lemma_fundamental_div_mod(ax, m);
    lemma_mod_bound(ax, m);
    vstd::arithmetic::div_mod::lemma_div_pos_is_pos(ax, m);
    assert(d * m <= ax && ax < (d + 1) * m) by (nonlinear_arith)
        requires
            ax == m * d + ax % m,
            0 <= ax % m < m,
    ;
    assert(abs_int(x) == ax);
    assert(abs_int(m) == m);
}

/// Unit length of a normalized vector, within fixed-point rounding:
/// for every vector whose magnitude is at least one unit, the dot
/// product of its normalization with itself lies within nine
/// millionths below and two millionths above one.  This is the
/// unit-length half of basis orthonormality, proved for all such
/// directions; the pairwise-perpendicularity half holds only up to the
/// same rounding and is checked numerically by the tests.
pub proof fn lemma_normalized_unit_length(v: (int, int, int))
    requires
        crate::vec3::spec_mag3(v) >= FX_ONE as int,
    ensures
        FX_ONE as int - 9 <= spec_dot3(
            crate::vec3::spec_normalize3(v),
            crate::vec3::spec_normalize3(v),
        ) <= FX_ONE as int + 2,
{
    let q = crate::vec3::spec_norm_sq(v);
    let m = crate::vec3::spec_mag3(v);
    assert(v.0 * v.0 >= 0 && v.1 * v.1 >= 0 && v.2 * v.2 >= 0) by (nonlinear_arith);
    crate::fx::lemma_sqrt_floor_bounds(q as nat);
    assert(m * m <= q && q < (m + 1) * (m + 1));
    let a0 = abs_int(v.0);
    let a1 = abs_int(v.1);
    let a2 = abs_int(v.2);
    lemma_trunc_div_char(v.0, m);
    lemma_trunc_div_char(v.1, m);
    lemma_trunc_div_char(v.2, m);
    let d0 = (a0 * FX_ONE as int) / m;
    let d1 = (a1 * FX_ONE as int) / m;
    let d2 = (a2 * FX_ONE as int) / m;
    assert(a0 <= m && a1 <= m && a2 <= m) by (nonlinear_arith)
        requires
            a0 >= 0 && a1 >= 0 && a2 >= 0,
            m >= 1,
            a0 * a0 + a1 * a1 + a2 * a2 == q,
            0 <= a1 * a1 && 0 <= a2 * a2 && 0 <= a0 * a0,
            q < (m + 1) * (m + 1),
    ;
    assert(d0 <= 1_000_000 && d1 <= 1_000_000 && d2 <= 1_000_000) by (nonlinear_arith)
        requires
            m >= 1,
            d0 * m <= a0 * 1_000_000 && a0 <= m && d0 >= 0,
            d1 * m <= a1 * 1_000_000 && a1 <= m && d1 >= 0,
            d2 * m <= a2 * 1_000_000 && a2 <= m && d2 >= 0,
    ;
    let n = crate::vec3::spec_normalize3(v);
    assert(n.0 == if v.0 >= 0 { d0 } else { -d0 });
    assert(n.1 == if v.1 >= 0 { d1 } else { -d1 });
    assert(n.2 == if v.2 >= 0 { d2 } else { -d2 });
    assert(n.0 * n.0 == d0 * d0 && n.1 * n.1 == d1 * d1 && n.2 * n.2 == d2 * d2)
        by (nonlinear_arith)
        requires
            n.0 == d0 || n.0 == -d0,
            n.1 == d1 || n.1 == -d1,
            n.2 == d2 || n.2 == -d2,
    ;
    let u0 = (d0 * d0) / (FX_ONE as int);
    let u1 = (d1 * d1) / (FX_ONE as int);
    let u2 = (d2 * d2) / (FX_ONE as int);
    lemma_square_quotient_char(d0);
    lemma_square_quotient_char(d1);
    lemma_square_quotient_char(d2);
    assert(crate::fx::spec_fx_mul(n.0, n.0) == u0);
    assert(crate::fx::spec_fx_mul(n.1, n.1) == u1);
    assert(crate::fx::spec_fx_mul(n.2, n.2) == u2);
    lemma_unit_sum_bounds(q, m, a0, a1, a2, d0, d1, d2, u0, u1, u2);
    assert(spec_dot3(n, n) == u0 + u1 + u2);
}

/// The quotient of a squared, bounded, non-negative value by the unit
/// scale: its division bracket and its bound by the scale itself.
proof fn lemma_square_quotient_char(d: int)
    requires
        0 <= d <= 1_000_000,
    ensures
        ({
            let u = (d * d) / (FX_ONE as int);
            &&& u >= 0
            &&& u * 1_000_000 <= d * d
            &&& d * d < (u + 1) * 1_000_000
            &&& u <= 1_000_000
            &&& spec_trunc_div(d * d, FX_ONE as int) == u
        }),
{
    let s = d * d;
    assert(0 <= s <= 1_000_000_000_000) by (nonlinear_arith)
        requires
            0 <= d <= 1_000_000,
            s == d * d,
    ;
    let u = s / (FX_ONE as int);
    lemma_fundamental_div_mod(s, FX_ONE as int);
    lemma_mod_bound(s, FX_ONE as int);
    vstd::arithmetic::div_mod::lemma_div_pos_is_pos(s, FX_ONE as int);
    vstd::arithmetic::div_mod::lemma_div_is_ordered(s, 1_000_000_000_000, FX_ONE as int);
    assert(1_000_000_000_000int / 1_000_000int == 1_000_000int);
    assert(u * 1_000_000 <= s && s < (u + 1) * 1_000_000) by (nonlinear_arith)
        requires
            s == 1_000_000 * u + s % 1_000_000,
            0 <= s % 1_000_000 < 1_000_000,
    ;
    assert(abs_int(s) == s);
}

/// Orthonormality of the view basis, exact for every camera direction
/// along the default forward axis: for any direction `(0, 0, -k)` the
/// three derived columns are exactly the unit world axes, mutually
/// perpendicular and of unit length.  For directions off the world
/// axes, unit length within rounding holds generally (see
/// [`lemma_normalized_unit_length`]); pairwise perpendicularity holds
/// only up to the same rounding and is checked numerically by the
/// tests.  A direction parallel to the world up has no side axis at
/// all and is excluded.
pub proof fn lemma_view_basis_orthonormal_forward_axis(k: int)
    requires
        0 < k <= crate::fx::FX_LIMIT as int,
    ensures
        ({
            let d = (0int, 0int, -k);
            let f = spec_forward(d);
            let sn = spec_side(d);
            let u = spec_up_axis(d);
            &&& f == (0int, 0int, -1_000_000int)
            &&& sn == (1_000_000int, 0int, 0int)
            &&& u == (0int, 1_000_000int, 0int)
            &&& spec_dot3(sn, u) == 0
            &&& spec_dot3(sn, f) == 0
            &&& spec_dot3(u, f) == 0
            &&& spec_dot3(sn, sn) == FX_ONE as int
            &&& spec_dot3(u, u) == FX_ONE as int
            &&& spec_dot3(f, f) == FX_ONE as int
        }),
{
    let d = (0int, 0int, -k);
    assert((-k) * (-k) == k * k
        && 0int * 0int == 0
        && 0 <= k * k
        && k * k < (k + 1) * (k + 1)
        && (-k) * 1_000_000 == -(k * 1_000_000)
        && 1_000_000 * 1_000_000 == 1_000_000_000_000
        && (-1_000_000) * 1_000_000 == -1_000_000_000_000
        && 1_000_000 * (-1_000_000) == -1_000_000_000_000
        && (-1_000_000) * (-1_000_000) == 1_000_000_000_000
        && 1_000_001 * 1_000_001 == 1_000_002_000_001) by (nonlinear_arith)
        requires
            0 < k,
    ;
    assert(crate::vec3::spec_norm_sq(d) == k * k);
    lemma_sqrt_floor_unique((k * k) as nat, k as nat);
    assert(crate::vec3::spec_mag3(d) == k);
    vstd::arithmetic::div_mod::lemma_div_multiples_vanish(1_000_000, k);
    assert((k * 1_000_000) / k == 1_000_000);
    vstd::arithmetic::div_mod::lemma_div_of0(k);
    assert(0int / k == 0int);
    let f = spec_forward(d);
    assert(f == (0int, 0int, -1_000_000int));
    let sr = crate::camera::spec_side_raw(d);
    assert(sr == (1_000_000int, 0int, 0int));
    assert(crate::vec3::spec_norm_sq(sr) == 1_000_000_000_000);
    lemma_sqrt_floor_unique(1_000_000_000_000nat, 1_000_000nat);
    assert(crate::vec3::spec_mag3(sr) == 1_000_000);
    assert(1_000_000_000_000int / 1_000_000int == 1_000_000int);
    assert(0int / 1_000_000int == 0int);
    let sn = spec_side(d);
    assert(sn == (1_000_000int, 0int, 0int));
    let u = spec_up_axis(d);
    assert(u == (0int, 1_000_000int, 0int));
}

} // verus!
