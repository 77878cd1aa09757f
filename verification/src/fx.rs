//! Fixed-point scalar arithmetic.
//!
//! Every coordinate, angle and matrix entry in this crate is an `i64` holding
//! a real quantity scaled by [`FX_ONE`] (so `1_000_000` stands for `1.0`).
//! All operations saturate at [`FX_LIMIT`], so every function here is total
//! and panic-free, and each one's result is pinned exactly by a spec twin.

use vstd::prelude::*;
use vstd::arithmetic::div_mod::{lemma_fundamental_div_mod, lemma_fundamental_div_mod_converse};

verus! {

/// The fixed-point representation of `1.0`.
pub const FX_ONE: i64 = 1_000_000;

/// Largest magnitude a fixed-point scalar may take (one million units).
pub const FX_LIMIT: i64 = 1_000_000_000_000;

/// One full turn, `2 * pi`, in fixed-point radians.
pub const FX_TWO_PI: i64 = 6_283_185;

pub open spec fn fx_in_range(a: i64) -> bool {
    -FX_LIMIT <= a <= FX_LIMIT
}

/// Saturation of a mathematical integer into the scalar range.
pub open spec fn spec_clip(a: int) -> int {
    if a > FX_LIMIT as int {
        FX_LIMIT as int
    } else if a < -(FX_LIMIT as int) {
        -(FX_LIMIT as int)
    } else {
        a
    }
}

/// Division truncating toward zero (the machine's signed division),
/// defined for any divisor; zero divisors yield zero.
pub open spec fn spec_trunc_div(a: int, b: int) -> int {
    if b == 0 {
        0
    } else {
        let q = abs_int(a) / abs_int(b);
        if (a >= 0) == (b >= 0) {
            q
        } else {
            -q
        }
    }
}

pub open spec fn abs_int(a: int) -> int {
    if a >= 0 {
        a
    } else {
        -a
    }
}

pub open spec fn spec_fx_add(a: int, b: int) -> int {
    spec_clip(a + b)
}

pub open spec fn spec_fx_sub(a: int, b: int) -> int {
    spec_clip(a - b)
}

pub open spec fn spec_fx_mul(a: int, b: int) -> int {
    spec_clip(spec_trunc_div(a * b, FX_ONE as int))
}

pub open spec fn spec_fx_div(a: int, b: int) -> int {
    spec_clip(spec_trunc_div(a * (FX_ONE as int), b))
}

/// Saturate an intermediate value into the scalar range.
pub fn fx_clip(a: i128) -> (r: i64)
    ensures
        r as int == spec_clip(a as int),
        fx_in_range(r),
{
    if a > FX_LIMIT as i128 {
        FX_LIMIT
    } else if a < -FX_LIMIT as i128 {
        -FX_LIMIT
    } else {
        a as i64
    }
}

pub fn fx_add(a: i64, b: i64) -> (r: i64)
    requires
        fx_in_range(a),
        fx_in_range(b),
    ensures
        r as int == spec_fx_add(a as int, b as int),
        fx_in_range(r),
{
    fx_clip(a as i128 + b as i128)
}

pub fn fx_sub(a: i64, b: i64) -> (r: i64)
    requires
        fx_in_range(a),
        fx_in_range(b),
    ensures
        r as int == spec_fx_sub(a as int, b as int),
        fx_in_range(r),
{
    fx_clip(a as i128 - b as i128)
}

/// Truncating division of an `i128` by a positive divisor.
pub(crate) fn i128_trunc_div(a: i128, b: i128) -> (r: i128)
    requires
        b > 0,
        a > i128::MIN,
    ensures
        r == spec_trunc_div(a as int, b as int),
{
    if a >= 0 {
        a / b
    } else {
        -((-a) / b)
    }
}

pub fn fx_mul(a: i64, b: i64) -> (r: i64)
    requires
        fx_in_range(a),
        fx_in_range(b),
    ensures
        r as int == spec_fx_mul(a as int, b as int),
        fx_in_range(r),
{
    proof {
        assert(a as int * b as int <= FX_LIMIT as int * FX_LIMIT as int
            && a as int * b as int >= -(FX_LIMIT as int * FX_LIMIT as int)) by (nonlinear_arith)
            requires
                -FX_LIMIT <= a <= FX_LIMIT,
                -FX_LIMIT <= b <= FX_LIMIT,
        ;
    }
    let p: i128 = (a as i128) * (b as i128);
    fx_clip(i128_trunc_div(p, FX_ONE as i128))
}

pub fn fx_div(a: i64, b: i64) -> (r: i64)
    requires
        fx_in_range(a),
        fx_in_range(b),
        b != 0,
    ensures
        r as int == spec_fx_div(a as int, b as int),
        fx_in_range(r),
{
    proof {
        assert(a as int * FX_ONE as int <= FX_LIMIT as int * FX_ONE as int
            && a as int * FX_ONE as int >= -(FX_LIMIT as int * FX_ONE as int)) by (nonlinear_arith)
            requires
                -FX_LIMIT <= a <= FX_LIMIT,
        ;
    }
    let n: i128 = (a as i128) * (FX_ONE as i128);
    let q: i128 = {
        let nn: i128 = if n >= 0 { n } else { -n };
        let bb: i128 = if b >= 0 { b as i128 } else { -(b as i128) };
        let m: i128 = nn / bb;
        if (n >= 0) == (b >= 0) { m } else { -m }
    };
    proof {
        assert(q == spec_trunc_div(n as int, b as int));
        assert(n as int == a as int * FX_ONE as int);
    }
    fx_clip(q)
}

/// Clamp a scalar into `[-FX_ONE, FX_ONE]`, the navigable unit box.
pub open spec fn spec_clamp_unit(a: int) -> int {
    if a > FX_ONE as int {
        FX_ONE as int
    } else if a < -(FX_ONE as int) {
        -(FX_ONE as int)
    } else {
        a
    }
}

pub fn fx_clamp_unit(a: i64) -> (r: i64)
    ensures
        r as int == spec_clamp_unit(a as int),
        -FX_ONE <= r <= FX_ONE,
{
    if a > FX_ONE {
        FX_ONE
    } else if a < -FX_ONE {
        -FX_ONE
    } else {
        a
    }
}

/// Euclidean remainder of an angle by a full turn: the result lies in
/// `[0, FX_TWO_PI)` whatever the sign of the argument.
pub fn fx_wrap_angle(a: i64) -> (r: i64)
    requires
        fx_in_range(a),
    ensures
        r as int == (a as int) % (FX_TWO_PI as int),
        0 <= r < FX_TWO_PI,
{
    if a >= 0 {
        a % FX_TWO_PI
    } else {
        let m: i64 = (-a) % FX_TWO_PI;
        proof {
            lemma_fundamental_div_mod(-a as int, FX_TWO_PI as int);
            let k = (-a as int) / (FX_TWO_PI as int);
            if m == 0 {
                lemma_fundamental_div_mod_converse(a as int, FX_TWO_PI as int, -k, 0);
            } else {
                lemma_fundamental_div_mod_converse(
                    a as int,
                    FX_TWO_PI as int,
                    -k - 1,
                    FX_TWO_PI as int - m,
                );
            }
        }
        if m == 0 {
            0
        } else {
            FX_TWO_PI - m
        }
    }
}

/// The sign of a scalar as a movement intent: `-1`, `0` or `1`.
pub open spec fn spec_sign(a: int) -> int {
    if a > 0 {
        1
    } else if a < 0 {
        -1
    } else {
        0
    }
}

pub fn fx_sign(a: i64) -> (r: i8)
    ensures
        r as int == spec_sign(a as int),
{
    if a > 0 {
        1
    } else if a < 0 {
        -1
    } else {
        0
    }
}

pub fn fx_abs(a: i64) -> (r: i64)
    requires
        fx_in_range(a),
    ensures
        r as int == abs_int(a as int),
        0 <= r <= FX_LIMIT,
{
    if a >= 0 {
        a
    } else {
        -a
    }
}

/// The integer square root, rounded down.
pub open spec fn spec_sqrt_floor(n: nat) -> nat
    decreases n,
{
    if n == 0 {
        0
    } else {
        let s = spec_sqrt_floor((n - 1) as nat);
        if (s + 1) * (s + 1) <= n {
            s + 1
        } else {
            s
        }
    }
}

pub proof fn lemma_sqrt_floor_bounds(n: nat)
    ensures
        spec_sqrt_floor(n) * spec_sqrt_floor(n) <= n,
        n < (spec_sqrt_floor(n) + 1) * (spec_sqrt_floor(n) + 1),
    decreases n,
{
    if n == 0 {
        let t = spec_sqrt_floor(n);
        assert(t == 0);
        assert(n < (t + 1) * (t + 1)) by (nonlinear_arith)
            requires
                n == 0,
                t == 0,
        ;
    } else {
        lemma_sqrt_floor_bounds((n - 1) as nat);
        let s = spec_sqrt_floor((n - 1) as nat);
        let t = spec_sqrt_floor(n);
        assert(t == if (s + 1) * (s + 1) <= n { s + 1 } else { s });
        assert(s * s <= n - 1);
        assert(n - 1 < (s + 1) * (s + 1));
        if (s + 1) * (s + 1) <= n {
            assert(t == s + 1);
            assert(n < (t + 1) * (t + 1)) by (nonlinear_arith)
                requires
                    t == s + 1,
                    n - 1 < (s + 1) * (s + 1),
                    s >= 0,
            ;
        } else {
            assert(t == s);
        }
    }
}

/// Floor square roots are unique: any `r` bracketing `n` is `spec_sqrt_floor(n)`.
pub proof fn lemma_sqrt_floor_unique(n: nat, r: nat)
    requires
        r * r <= n,
        n < (r + 1) * (r + 1),
    ensures
        r == spec_sqrt_floor(n),
{
    let s = spec_sqrt_floor(n);
    lemma_sqrt_floor_bounds(n);
    assert(r == s) by (nonlinear_arith)
        requires
            r * r <= n,
            n < (r + 1) * (r + 1),
            s * s <= n,
            n < (s + 1) * (s + 1),
    ;
}

/// Half a turn, `pi`, in fixed-point radians.
pub const FX_PI: i64 = 3_141_593;

/// A quarter turn, `pi / 2`, in fixed-point radians.
pub const FX_HALF_PI: i64 = 1_570_796;

/// Three quarters of a turn, `3 * pi / 2`, in fixed-point radians.
pub const FX_THREE_HALF_PI: i64 = 4_712_389;

/// Truncated Taylor polynomial for the sine of an angle in the first quadrant.
pub open spec fn spec_sin_quarter(x: int) -> int {
    let s = FX_ONE as int;
    let x2 = (x * x) / s;
    let x3 = (x2 * x) / s;
    let x5 = (x3 * x2) / s;
    let x7 = (x5 * x2) / s;
    x - x3 / 6 + x5 / 120 - x7 / 5040
}

/// Truncated Taylor polynomial for the cosine of an angle in the first quadrant.
pub open spec fn spec_cos_quarter(x: int) -> int {
    let s = FX_ONE as int;
    let x2 = (x * x) / s;
    let x4 = (x2 * x2) / s;
    let x6 = (x4 * x2) / s;
    let x8 = (x6 * x2) / s;
    s - x2 / 2 + x4 / 24 - x6 / 720 + x8 / 40320
}

/// Quadrant reduction of the sine over one full turn.
pub open spec fn spec_fx_sin(x: int) -> int {
    if x < FX_HALF_PI as int {
        spec_sin_quarter(x)
    } else if x < FX_PI as int {
        spec_sin_quarter(FX_PI as int - x)
    } else if x < FX_THREE_HALF_PI as int {
        -spec_sin_quarter(x - FX_PI as int)
    } else {
        -spec_sin_quarter(FX_TWO_PI as int - x)
    }
}

/// Quadrant reduction of the cosine over one full turn.
pub open spec fn spec_fx_cos(x: int) -> int {
    if x < FX_HALF_PI as int {
        spec_cos_quarter(x)
    } else if x < FX_PI as int {
        -spec_cos_quarter(FX_PI as int - x)
    } else if x < FX_THREE_HALF_PI as int {
        -spec_cos_quarter(x - FX_PI as int)
    } else {
        spec_cos_quarter(FX_TWO_PI as int - x)
    }
}

/// Powers of a first-quadrant angle shared by the two Taylor polynomials.
fn quarter_powers(x: i64) -> (r: (i64, i64))
    requires
        0 <= x <= FX_PI,
    ensures
        r.0 == (x as int * x as int) / (FX_ONE as int),
        r.1 == (r.0 as int * x as int) / (FX_ONE as int),
        0 <= r.0 <= 9_870_000,
        0 <= r.1 <= 31_100_000,
{
    proof {
        assert(x as int * x as int <= 9_870_000 * FX_ONE as int && x as int * x as int >= 0)
            by (nonlinear_arith)
            requires
                0 <= x <= FX_PI,
        ;
    }
    let x2: i64 = (x * x) / FX_ONE;
    proof {
        vstd::arithmetic::div_mod::lemma_div_is_ordered(
            x as int * x as int,
            9_870_000 * FX_ONE as int,
            FX_ONE as int,
        );
        assert(x2 as int * x as int <= 31_100_000 * FX_ONE as int && x2 as int * x as int >= 0)
            by (nonlinear_arith)
            requires
                0 <= x2 <= 9_870_000,
                0 <= x <= FX_PI,
        ;
    }
    let x3: i64 = (x2 * x) / FX_ONE;
    proof {
        vstd::arithmetic::div_mod::lemma_div_is_ordered(
            x2 as int * x as int,
            31_100_000 * FX_ONE as int,
            FX_ONE as int,
        );
    }
    (x2, x3)
}

/// The sine of a wrapped angle, as a truncated Taylor series per quadrant.
pub fn fx_sin(x: i64) -> (r: i64)
    requires
        0 <= x < FX_TWO_PI,
    ensures
        r as int == spec_fx_sin(x as int),
        fx_in_range(r),
{
    if x < FX_HALF_PI {
        sin_quarter(x)
    } else if x < FX_PI {
        sin_quarter(FX_PI - x)
    } else if x < FX_THREE_HALF_PI {
        -sin_quarter(x - FX_PI)
    } else {
        -sin_quarter(FX_TWO_PI - x)
    }
}

/// The cosine of a wrapped angle, as a truncated Taylor series per quadrant.
pub fn fx_cos(x: i64) -> (r: i64)
    requires
        0 <= x < FX_TWO_PI,
    ensures
        r as int == spec_fx_cos(x as int),
        fx_in_range(r),
{
    if x < FX_HALF_PI {
        cos_quarter(x)
    } else if x < FX_PI {
        -cos_quarter(FX_PI - x)
    } else if x < FX_THREE_HALF_PI {
        -cos_quarter(x - FX_PI)
    } else {
        cos_quarter(FX_TWO_PI - x)
    }
}

fn sin_quarter(x: i64) -> (r: i64)
    requires
        0 <= x <= FX_PI,
    ensures
        r as int == spec_sin_quarter(x as int),
        fx_in_range(r),
{
    let (x2, x3) = quarter_powers(x);
    proof {
        assert(x3 as int * x2 as int <= 400_000_000 * FX_ONE as int && x3 as int * x2 as int >= 0)
            by (nonlinear_arith)
            requires
                0 <= x2 <= 9_870_000,
                0 <= x3 <= 31_100_000,
        ;
    }
    let x5: i64 = (x3 * x2) / FX_ONE;
    proof {
        vstd::arithmetic::div_mod::lemma_div_is_ordered(
            x3 as int * x2 as int,
            400_000_000 * FX_ONE as int,
            FX_ONE as int,
        );
        assert(x5 as int * x2 as int <= 4_000_000_000_000_000
            && x5 as int * x2 as int >= 0) by (nonlinear_arith)
            requires
                0 <= x2 <= 9_870_000,
                0 <= x5 <= 400_000_000,
        ;
    }
    let x7: i64 = (x5 * x2) / FX_ONE;
    proof {
        vstd::arithmetic::div_mod::lemma_div_is_ordered(
            x5 as int * x2 as int,
            4_000_000_000_000_000,
            FX_ONE as int,
        );
    }
    x - x3 / 6 + x5 / 120 - x7 / 5040
}

fn cos_quarter(x: i64) -> (r: i64)
    requires
        0 <= x <= FX_PI,
    ensures
        r as int == spec_cos_quarter(x as int),
        fx_in_range(r),
{
    let (x2, _x3) = quarter_powers(x);
    proof {
        assert(x2 as int * x2 as int <= 97_420_000 * FX_ONE as int && x2 as int * x2 as int >= 0)
            by (nonlinear_arith)
            requires
                0 <= x2 <= 9_870_000,
        ;
    }
    let x4: i64 = (x2 * x2) / FX_ONE;
    proof {
        vstd::arithmetic::div_mod::lemma_div_is_ordered(
            x2 as int * x2 as int,
            97_420_000 * FX_ONE as int,
            FX_ONE as int,
        );
        assert(x4 as int * x2 as int <= 961_540_000_000 * FX_ONE as int
            && x4 as int * x2 as int >= 0) by (nonlinear_arith)
            requires
                0 <= x2 <= 9_870_000,
                0 <= x4 <= 97_420_000,
        ;
    }
    let x6: i64 = (x4 * x2) / FX_ONE;
    proof {
        vstd::arithmetic::div_mod::lemma_div_is_ordered(
            x4 as int * x2 as int,
            961_540_000_000 * FX_ONE as int,
            FX_ONE as int,
        );
        assert(x6 as int * x2 as int <= 9_490_500_000_000_000_000 * FX_ONE as int
            && x6 as int * x2 as int >= 0) by (nonlinear_arith)
            requires
                0 <= x2 <= 9_870_000,
                0 <= x6 <= 961_540_000_000,
        ;
    }
    proof {
        assert(x6 as int * x2 as int <= 9_490_500_000_000_000_000 && x6 as int * x2 as int >= 0)
            by (nonlinear_arith)
            requires
                0 <= x2 <= 9_870_000,
                0 <= x6 <= 961_540_000_000,
        ;
        vstd::arithmetic::div_mod::lemma_div_is_ordered(
            x6 as int * x2 as int,
            9_490_500_000_000_000_000,
            FX_ONE as int,
        );
    }
    let x8: i64 = (x6 as i128 * x2 as i128 / FX_ONE as i128) as i64;
    FX_ONE - x2 / 2 + x4 / 24 - x6 / 720 + x8 / 40320
}

/// Binary search for the floor square root of a wide intermediate value.
pub fn isqrt_u128(n: u128) -> (r: u128)
    requires
        n < 0x4000_0000_0000_0000_0000_0000_0000_0000u128,
    ensures
        r as nat == spec_sqrt_floor(n as nat),
        r * r <= n,
{
    let mut lo: u128 = 0;
    let mut hi: u128 = 0x8000_0000_0000_0000u128;
    proof {
        assert(n < hi * hi) by (nonlinear_arith)
            requires
                n < 0x4000_0000_0000_0000_0000_0000_0000_0000u128,
                hi == 0x8000_0000_0000_0000u128,
        ;
    }
    while lo + 1 < hi
        invariant
            lo < hi <= 0x8000_0000_0000_0000u128,
            lo * lo <= n,
            n < hi * hi,
        decreases hi - lo,
    {
        let mid: u128 = lo + (hi - lo) / 2;
        proof {
            assert(mid * mid < 0x1_0000_0000_0000_0000_0000_0000_0000_0000) by (nonlinear_arith)
                requires
                    mid <= 0x8000_0000_0000_0000u128,
            ;
        }
        if mid * mid <= n {
            lo = mid;
        } else {
            hi = mid;
        }
    }
    proof {
        lemma_sqrt_floor_unique(n as nat, lo as nat);
    }
    lo
}

} // verus!
