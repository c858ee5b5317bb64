//! Fixed-point scalars.
//!
//! Every quantity the pipeline computes with — positions, rotations,
//! scales, blend weights — is an [`Fx`]: a signed 16.16 fixed-point
//! number stored in an `i64`. Arithmetic saturates at [`FX_LIM`], so the
//! pipeline is total: no overflow, no undefined values, and the same
//! inputs always give the same outputs.

use vstd::prelude::*;

verus! {

/// Raw representation of 1.0: 16 fractional bits.
pub const FX_ONE: i64 = 65536;

/// Saturation bound on every stored scalar (16384.0 in fixed point).
///
/// Keeping `|bits| <= FX_LIM` means a product of two scalars stays well
/// inside `i64`, and a sum of two squares does too.
pub const FX_LIM: i64 = 0x4000_0000;

/// A signed 16.16 fixed-point scalar.
#[derive(Clone, Copy, PartialEq, Eq, Structural, Debug)]
pub struct Fx {
    pub bits: i64,
}

/// Clamp a mathematical integer into the representable band.
pub open spec fn sat(v: int) -> int {
    if v > FX_LIM {
        FX_LIM as int
    } else if v < -FX_LIM {
        -FX_LIM as int
    } else {
        v
    }
}

/// Integer division truncated toward zero (the rounding every stage uses).
pub open spec fn div_trunc(a: int, d: int) -> int
    recommends
        d > 0,
{
    if a >= 0 {
        a / d
    } else {
        -((-a) / d)
    }
}

/// What addition returns: the exact sum, saturated.
pub open spec fn fx_add_spec(a: int, b: int) -> int {
    sat(a + b)
}

/// What multiplication returns: the exact product rescaled by 1.0,
/// truncated toward zero, saturated.
pub open spec fn fx_mul_spec(a: int, b: int) -> int {
    sat(div_trunc(a * b, FX_ONE as int))
}

/// What division returns: the exact quotient rescaled by 1.0, truncated
/// toward zero, saturated. Division by zero is excluded by contract.
pub open spec fn fx_div_spec(a: int, b: int) -> int
    recommends
        b != 0,
{
    if b > 0 {
        sat(div_trunc(a * FX_ONE, b))
    } else {
        sat(div_trunc(-(a * FX_ONE), -b))
    }
}

impl Fx {
    /// The scalar is inside the saturation band.
    pub open spec fn wf(self) -> bool {
        -FX_LIM <= self.bits <= FX_LIM
    }

    /// The mathematical value of the raw bits.
    pub open spec fn v(self) -> int {
        self.bits as int
    }

    /// Build a scalar from raw bits, saturating out-of-band input.
    pub fn from_bits(bits: i64) -> (r: Fx)
        ensures
            r.wf(),
            r.v() == sat(bits as int),
    {
        if bits > FX_LIM {
            Fx { bits: FX_LIM }
        } else if bits < -FX_LIM {
            Fx { bits: -FX_LIM }
        } else {
            Fx { bits }
        }
    }

    /// The fixed-point image of a small integer.
    pub fn from_int(units: i32) -> (r: Fx)
        ensures
            r.wf(),
            r.v() == sat(units as int * FX_ONE as int),
    {
        if units > 16384 {
            Fx { bits: FX_LIM }
        } else if units < -16384 {
            Fx { bits: -FX_LIM }
        } else {
            Fx { bits: (units as i64) * FX_ONE }
        }
    }

    /// Zero.
    pub fn zero() -> (r: Fx)
        ensures
            r.wf(),
            r.v() == 0,
    {
        Fx { bits: 0 }
    }

    /// One.
    pub fn one() -> (r: Fx)
        ensures
            r.wf(),
            r.v() == FX_ONE as int,
    {
        Fx { bits: FX_ONE }
    }

    /// Saturating addition.
    pub fn add(self, other: Fx) -> (r: Fx)
        requires
            self.wf(),
            other.wf(),
        ensures
            r.wf(),
            r.v() == fx_add_spec(self.v(), other.v()),
    {
        Fx::from_bits(self.bits + other.bits)
    }

    /// Saturating subtraction.
    pub fn sub(self, other: Fx) -> (r: Fx)
        requires
            self.wf(),
            other.wf(),
        ensures
            r.wf(),
            r.v() == fx_add_spec(self.v(), -other.v()),
    {
        Fx::from_bits(self.bits - other.bits)
    }

    /// Negation.
    pub fn neg(self) -> (r: Fx)
        requires
            self.wf(),
        ensures
            r.wf(),
            r.v() == -self.v(),
    {
        Fx { bits: -self.bits }
    }

    /// Absolute value.
    pub fn abs(self) -> (r: Fx)
        requires
            self.wf(),
        ensures
            r.wf(),
            r.v() == if self.v() >= 0 { self.v() } else { -self.v() },
    {
        if self.bits >= 0 {
            self
        } else {
            Fx { bits: -self.bits }
        }
    }

    /// Saturating fixed-point multiplication.
    pub fn mul(self, other: Fx) -> (r: Fx)
        requires
            self.wf(),
            other.wf(),
        ensures
            r.wf(),
            r.v() == fx_mul_spec(self.v(), other.v()),
    {
        proof {
            assert(-0x1000_0000_0000_0000 <= self.bits * other.bits <= 0x1000_0000_0000_0000)
                by (nonlinear_arith)
                requires
                    -FX_LIM <= self.bits <= FX_LIM,
                    -FX_LIM <= other.bits <= FX_LIM,
            ;
        }
        let p: i64 = self.bits * other.bits;
        let q: i64 = if p >= 0 {
            p / FX_ONE
        } else {
            -((-p) / FX_ONE)
        };
        Fx::from_bits(q)
    }

    /// Saturating fixed-point division; the divisor must be nonzero.
    pub fn div(self, other: Fx) -> (r: Fx)
        requires
            self.wf(),
            other.wf(),
            other.v() != 0,
        ensures
            r.wf(),
            r.v() == fx_div_spec(self.v(), other.v()),
    {
        let n: i64 = self.bits * FX_ONE;
        if other.bits > 0 {
            let q: i64 = if n >= 0 {
                n / other.bits
            } else {
                -((-n) / other.bits)
            };
            Fx::from_bits(q)
        } else {
            let m: i64 = -n;
            let d: i64 = -other.bits;
            let q: i64 = if m >= 0 {
                m / d
            } else {
                -((-m) / d)
            };
            Fx::from_bits(q)
        }
    }

    /// Strictly-less comparison on the mathematical value.
    pub fn lt(self, other: Fx) -> (r: bool)
        ensures
            r == (self.v() < other.v()),
    {
        self.bits < other.bits
    }

    /// Less-or-equal comparison on the mathematical value.
    pub fn le(self, other: Fx) -> (r: bool)
        ensures
            r == (self.v() <= other.v()),
    {
        self.bits <= other.bits
    }
}

/// One full turn, in fixed-point degrees.
pub const TURN: i64 = 23592960;

/// Half a turn (180 degrees), in fixed-point degrees.
pub const HALF_TURN: i64 = 11796480;

/// An angle folded into [0, TURN).
pub open spec fn norm_turn_spec(a: int) -> int {
    a % (TURN as int)
}

/// The signed shortest step from one angle to another, in
/// (-HALF_TURN, HALF_TURN].
pub open spec fn shortest_delta_spec(from: int, to: int) -> int {
    let d = norm_turn_spec(to - from);
    if d > HALF_TURN {
        d - TURN
    } else {
        d
    }
}

/// How the Euclidean remainder of a negative number relates to the
/// remainder of its negation.
proof fn lemma_neg_mod(a: int, t: int)
    requires
        t > 0,
        a < 0,
    ensures
        a % t == if (-a) % t == 0 { 0int } else { t - ((-a) % t) },
{
    let b = -a;
    let q = b / t;
    let m = b % t;
    vstd::arithmetic::div_mod::lemma_fundamental_div_mod(b, t);
    if m == 0 {
        assert(a == (-q) * t + 0) by (nonlinear_arith)
            requires
                b == t * q + m,
                m == 0,
                a == -b,
        ;
        vstd::arithmetic::div_mod::lemma_fundamental_div_mod_converse_mod(a, t, -q, 0);
    } else {
        assert(a == (-q - 1) * t + (t - m)) by (nonlinear_arith)
            requires
                b == t * q + m,
                a == -b,
        ;
        vstd::arithmetic::div_mod::lemma_fundamental_div_mod_converse_mod(a, t, -q - 1, t - m);
    }
}

/// The signed shortest step between two angles, never more than half a
/// turn in magnitude.
pub fn shortest_delta(from: Fx, to: Fx) -> (r: Fx)
    requires
        from.wf(),
        to.wf(),
    ensures
        r.wf(),
        r.v() == shortest_delta_spec(from.v(), to.v()),
        -HALF_TURN < r.v() <= HALF_TURN,
{
    let diff: i64 = to.bits - from.bits;
    let d: i64 = norm_turn_wide(diff);
    if d > HALF_TURN {
        Fx { bits: d - TURN }
    } else {
        Fx { bits: d }
    }
}

/// Fold a raw (possibly out-of-band) angle difference into [0, TURN).
pub(crate) fn norm_turn_wide(a: i64) -> (r: i64)
    requires
        -0x1_0000_0000 <= a <= 0x1_0000_0000,
    ensures
        r == norm_turn_spec(a as int),
        0 <= r < TURN,
{
    if a >= 0 {
        a % TURN
    } else {
        let m: i64 = (-a) % TURN;
        proof {
            lemma_neg_mod(a as int, TURN as int);
        }
        if m == 0 {
            0
        } else {
            TURN - m
        }
    }
}

} // verus!
