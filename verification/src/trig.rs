//! Fixed-point trigonometry.
//!
//! Rotation composition needs sine and cosine; the inverse-kinematics
//! solver needs atan2 and a square root. All four are integer
//! computations on fixed-point degrees, defined exactly by their spec
//! functions, so every pipeline stage built on them stays a pure
//! function of its inputs.
//!
//! Sine uses a rational approximation that is exact at every multiple
//! of 90 degrees and stays within [-1, 1]; atan2 uses an octant
//! reduction with a quadratic correction term, exact on the axes.

use vstd::prelude::*;
use crate::fx::{Fx, FX_ONE, HALF_TURN, norm_turn_spec};

verus! {

/// A quarter turn (90 degrees), in fixed-point degrees.
pub const QUARTER_TURN: i64 = 5898240;

/// Denominator constant of the sine approximation:
/// `40500 * FX_ONE * FX_ONE`.
pub const SIN_DEN: i64 = 173946175488000;

/// The half-turn sine kernel on [0, HALF_TURN]:
/// `4 x (HALF_TURN - x) * FX_ONE / (SIN_DEN - x (HALF_TURN - x))`.
///
/// This is exact at 0, 90 and 180 degrees and never exceeds 1.0.
pub open spec fn sin_kernel_spec(x: int) -> int
    recommends
        0 <= x <= HALF_TURN,
{
    let n = x * (HALF_TURN - x);
    (4 * n * FX_ONE) / (SIN_DEN - n)
}

/// Sine of an angle in fixed-point degrees, scaled by `FX_ONE`.
pub open spec fn sin_spec(a: int) -> int {
    let d = norm_turn_spec(a);
    if d <= HALF_TURN {
        sin_kernel_spec(d)
    } else {
        -sin_kernel_spec(d - HALF_TURN)
    }
}

/// Cosine of an angle in fixed-point degrees, scaled by `FX_ONE`:
/// the sine a quarter turn ahead.
pub open spec fn cos_spec(a: int) -> int {
    sin_spec(a + QUARTER_TURN)
}

/// The sine kernel stays in [0, FX_ONE].
proof fn lemma_sin_kernel_bounds(x: int)
    requires
        0 <= x <= HALF_TURN,
    ensures
        0 <= sin_kernel_spec(x) <= FX_ONE,
{
    let n = x * (HALF_TURN - x);
    assert(0 <= n <= QUARTER_TURN * QUARTER_TURN) by (nonlinear_arith)
        requires
            0 <= x <= HALF_TURN,
            n == x * (HALF_TURN - x),
    ;
    let num = 4 * n * FX_ONE;
    let den = SIN_DEN - n;
    assert(den > 0);
    vstd::arithmetic::div_mod::lemma_div_pos_is_pos(num, den);
    assert(num <= den * FX_ONE) by (nonlinear_arith)
        requires
            0 <= n <= QUARTER_TURN * QUARTER_TURN,
            num == 4 * n * FX_ONE,
            den == SIN_DEN - n,
    ;
    vstd::arithmetic::div_mod::lemma_div_is_ordered(num, den * FX_ONE, den);
    vstd::arithmetic::div_mod::lemma_div_multiples_vanish(FX_ONE as int, den);
    assert(den * FX_ONE == FX_ONE * den) by (nonlinear_arith);
}

/// The sine kernel, on a folded angle in [0, HALF_TURN].
fn sin_kernel(x: i64) -> (r: i64)
    requires
        0 <= x <= HALF_TURN,
    ensures
        r == sin_kernel_spec(x as int),
        0 <= r <= FX_ONE,
{
    proof {
        assert(0 <= x * (HALF_TURN - x) <= QUARTER_TURN * QUARTER_TURN) by (nonlinear_arith)
            requires
                0 <= x <= HALF_TURN,
        ;
    }
    let n: i64 = x * (HALF_TURN - x);
    proof {
        assert(4 * n * FX_ONE <= 0x7E90_0000_0000_0000) by (nonlinear_arith)
            requires
                0 <= n <= QUARTER_TURN * QUARTER_TURN,
        ;
        lemma_sin_kernel_bounds(x as int);
    }
    let num: i64 = 4 * n * FX_ONE;
    let den: i64 = SIN_DEN - n;
    num / den
}

/// Sine of a raw fixed-point-degree angle.
pub fn sin_raw(bits: i64) -> (r: Fx)
    requires
        -0x1_0000_0000 <= bits <= 0x1_0000_0000,
    ensures
        r.wf(),
        r.v() == sin_spec(bits as int),
        -FX_ONE <= r.v() <= FX_ONE,
{
    let d: i64 = crate::fx::norm_turn_wide(bits);
    if d <= HALF_TURN {
        Fx { bits: sin_kernel(d) }
    } else {
        Fx { bits: -sin_kernel(d - HALF_TURN) }
    }
}

/// Sine of an angle.
pub fn sin_fx(a: Fx) -> (r: Fx)
    requires
        a.wf(),
    ensures
        r.wf(),
        r.v() == sin_spec(a.v()),
        -FX_ONE <= r.v() <= FX_ONE,
{
    sin_raw(a.bits)
}

/// Cosine of an angle.
pub fn cos_fx(a: Fx) -> (r: Fx)
    requires
        a.wf(),
    ensures
        r.wf(),
        r.v() == cos_spec(a.v()),
        -FX_ONE <= r.v() <= FX_ONE,
{
    sin_raw(a.bits + QUARTER_TURN)
}

/// `r` is the integer square root of `x`.
pub open spec fn is_isqrt(x: int, r: int) -> bool {
    0 <= r && r * r <= x && x < (r + 1) * (r + 1)
}

/// The integer square root of a nonnegative number.
pub open spec fn isqrt_spec(x: int) -> int
    decreases x,
{
    if x <= 0 {
        0
    } else {
        let r = isqrt_spec(x - 1);
        if (r + 1) * (r + 1) <= x {
            r + 1
        } else {
            r
        }
    }
}

/// The recursive square root really is the integer square root.
pub proof fn lemma_isqrt_correct(x: int)
    requires
        0 <= x,
    ensures
        is_isqrt(x, isqrt_spec(x)),
    decreases x,
{
    if x > 0 {
        lemma_isqrt_correct(x - 1);
        let r = isqrt_spec(x - 1);
        if (r + 1) * (r + 1) <= x {
            assert(x < (r + 2) * (r + 2)) by (nonlinear_arith)
                requires
                    r >= 0,
                    x - 1 < (r + 1) * (r + 1),
            ;
        }
    }
}

/// The integer square root is unique.
pub proof fn lemma_isqrt_unique(x: int, r1: int, r2: int)
    requires
        is_isqrt(x, r1),
        is_isqrt(x, r2),
    ensures
        r1 == r2,
{
    assert(r1 == r2) by (nonlinear_arith)
        requires
            0 <= r1 && r1 * r1 <= x && x < (r1 + 1) * (r1 + 1),
            0 <= r2 && r2 * r2 <= x && x < (r2 + 1) * (r2 + 1),
    ;
}

/// Integer square root: the greatest `r` with `r * r <= x`.
pub fn isqrt64(x: u64) -> (r: u64)
    ensures
        r * r <= x,
        x < (r + 1) * (r + 1),
        r < 0x1_0000_0000,
        r == isqrt_spec(x as int),
{
    let mut lo: u64 = 0;
    let mut hi: u64 = 0x1_0000_0000;
    proof {
        assert(x < 0x1_0000_0000 * 0x1_0000_0000) by (nonlinear_arith)
            requires
                x <= 0xFFFF_FFFF_FFFF_FFFF,
        ;
    }
    while lo + 1 < hi
        invariant
            lo < hi <= 0x1_0000_0000,
            lo * lo <= x,
            x < hi * hi,
        decreases hi - lo,
    {
        let mid: u64 = lo + (hi - lo) / 2;
        proof {
            assert(mid * mid < 0x1_0000_0000_0000_0000) by (nonlinear_arith)
                requires
                    mid < 0x1_0000_0000,
            ;
        }
        if mid * mid <= x {
            lo = mid;
        } else {
            hi = mid;
        }
    }
    proof {
        assert(is_isqrt(x as int, lo as int));
        lemma_isqrt_correct(x as int);
        lemma_isqrt_unique(x as int, lo as int, isqrt_spec(x as int));
    }
    lo
}

/// Numerator constant of the atan correction term (about 15.64 degrees
/// in fixed point).
pub const ATAN_K: i64 = 1025000;

/// The atan kernel on a unit-interval ratio `z` in [0, FX_ONE]:
/// `45 z + ATAN_K * z * (FX_ONE - z) / FX_ONE^2` fixed-point degrees.
///
/// Exact at the ends: 0 at `z == 0`, 45 degrees at `z == FX_ONE`.
pub open spec fn atan_kernel_spec(z: int) -> int
    recommends
        0 <= z <= FX_ONE,
{
    45 * z + (ATAN_K * (z * (FX_ONE - z))) / (FX_ONE * FX_ONE)
}

/// The atan kernel stays in [0, QUARTER_TURN / 2].
proof fn lemma_atan_kernel_bounds(z: int)
    requires
        0 <= z <= FX_ONE,
    ensures
        0 <= atan_kernel_spec(z) <= 2949120 + 256250,
{
    let m = z * (FX_ONE - z);
    assert(0 <= m <= 0x4000_0000) by (nonlinear_arith)
        requires
            0 <= z <= FX_ONE,
            m == z * (FX_ONE - z),
    ;
    let num = ATAN_K * m;
    assert(0 <= num <= ATAN_K * 0x4000_0000) by (nonlinear_arith)
        requires
            0 <= m <= 0x4000_0000,
            num == ATAN_K * m,
    ;
    vstd::arithmetic::div_mod::lemma_div_pos_is_pos(num, FX_ONE * FX_ONE);
    vstd::arithmetic::div_mod::lemma_div_is_ordered(num, ATAN_K * 0x4000_0000,
        FX_ONE * FX_ONE);
}

/// The atan kernel on a ratio in [0, FX_ONE].
fn atan_kernel(z: i64) -> (r: i64)
    requires
        0 <= z <= FX_ONE,
    ensures
        r == atan_kernel_spec(z as int),
        0 <= r <= QUARTER_TURN,
{
    proof {
        assert(0 <= z * (FX_ONE - z) <= 0x4000_0000) by (nonlinear_arith)
            requires
                0 <= z <= FX_ONE,
        ;
        lemma_atan_kernel_bounds(z as int);
    }
    let m: i64 = z * (FX_ONE - z);
    let corr: i64 = (ATAN_K * m) / (FX_ONE * FX_ONE);
    45 * z + corr
}

/// atan2 in fixed-point degrees, in (-HALF_TURN, HALF_TURN].
///
/// The origin maps to 0; the positive x axis to 0, the positive y axis
/// to 90 degrees, the negative x axis to 180 degrees, the negative y
/// axis to -90 degrees, all exactly.
pub open spec fn atan2_spec(y: int, x: int) -> int {
    if x == 0 && y == 0 {
        0
    } else {
        let ax = if x >= 0 { x } else { -x };
        let ay = if y >= 0 { y } else { -y };
        let base = if ay <= ax {
            atan_kernel_spec((ay * FX_ONE) / ax)
        } else {
            QUARTER_TURN - atan_kernel_spec((ax * FX_ONE) / ay)
        };
        if x >= 0 && y >= 0 {
            base
        } else if x < 0 && y >= 0 {
            HALF_TURN - base
        } else if x >= 0 {
            -base
        } else {
            base - HALF_TURN
        }
    }
}

/// atan2 never leaves the half-turn band.
pub proof fn lemma_atan2_in_band(y: int, x: int)
    ensures
        -HALF_TURN <= atan2_spec(y, x) <= HALF_TURN,
{
    if x == 0 && y == 0 {
    } else {
        let ax = if x >= 0 { x } else { -x };
        let ay = if y >= 0 { y } else { -y };
        if ay <= ax {
            lemma_ratio_unit(ay, ax);
            lemma_atan_kernel_bounds((ay * FX_ONE) / ax);
        } else {
            lemma_ratio_unit(ax, ay);
            lemma_atan_kernel_bounds((ax * FX_ONE) / ay);
        }
    }
}

/// The scaled ratio of a smaller nonnegative number to a larger one
/// stays in the unit interval.
proof fn lemma_ratio_unit(a: int, b: int)
    requires
        0 <= a <= b,
        b > 0,
    ensures
        0 <= (a * FX_ONE) / b <= FX_ONE,
{
    assert(0 <= a * FX_ONE <= b * FX_ONE) by (nonlinear_arith)
        requires
            0 <= a <= b,
    ;
    vstd::arithmetic::div_mod::lemma_div_pos_is_pos(a * FX_ONE, b);
    vstd::arithmetic::div_mod::lemma_div_is_ordered(a * FX_ONE, b * FX_ONE, b);
    vstd::arithmetic::div_mod::lemma_div_multiples_vanish(FX_ONE as int, b);
    assert(b * FX_ONE == FX_ONE * b) by (nonlinear_arith);
}

/// atan2 never leaves the half-turn band, for every input.
pub proof fn lemma_atan2_in_band_all()
    ensures
        forall|y: int, x: int| -HALF_TURN <= #[trigger] atan2_spec(y, x) <= HALF_TURN,
{
    assert forall|y: int, x: int| -HALF_TURN <= #[trigger] atan2_spec(y, x) <= HALF_TURN by {
        lemma_atan2_in_band(y, x);
    }
}

/// The angle from the origin to the point `(x, y)`, on raw coordinate
/// differences (which may span twice the saturation band).
pub fn atan2_fx(y: i64, x: i64) -> (r: Fx)
    requires
        -0x1_0000_0000 <= x <= 0x1_0000_0000,
        -0x1_0000_0000 <= y <= 0x1_0000_0000,
    ensures
        r.wf(),
        r.v() == atan2_spec(y as int, x as int),
        -HALF_TURN <= r.v() <= HALF_TURN,
{
    if x == 0 && y == 0 {
        return Fx { bits: 0 };
    }
    let ax: i64 = if x >= 0 { x } else { -x };
    let ay: i64 = if y >= 0 { y } else { -y };
    let base: i64 = if ay <= ax {
        proof {
            assert((ay as int * FX_ONE) / (ax as int) <= FX_ONE) by (nonlinear_arith)
                requires
                    0 <= ay <= ax,
                    ax > 0,
            ;
            vstd::arithmetic::div_mod::lemma_div_pos_is_pos(ay * FX_ONE, ax as int);
        }
        atan_kernel((ay * FX_ONE) / ax)
    } else {
        proof {
            assert((ax as int * FX_ONE) / (ay as int) <= FX_ONE) by (nonlinear_arith)
                requires
                    0 <= ax < ay,
            ;
            vstd::arithmetic::div_mod::lemma_div_pos_is_pos(ax * FX_ONE, ay as int);
        }
        QUARTER_TURN - atan_kernel((ax * FX_ONE) / ay)
    };
    if x >= 0 && y >= 0 {
        Fx { bits: base }
    } else if x < 0 && y >= 0 {
        Fx { bits: HALF_TURN - base }
    } else if x >= 0 {
        Fx { bits: -base }
    } else {
        Fx { bits: base - HALF_TURN }
    }
}

} // verus!
