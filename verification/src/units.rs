//! Fixed-point sample arithmetic.
//!
//! Audio samples, gains and envelope values are signed 16.16 fixed-point
//! numbers held in `i64`: the value `x` stands for the real number
//! `x / 65536`.  `UNIT` is 1.0; a full-scale oscillator swings between
//! `-UNIT` and `UNIT`.  All scaling operations round toward zero, and every
//! operation used on the audio path has an exact integer specification, so a
//! mixed block is a mathematical function of the inputs.

use vstd::prelude::*;

verus! {

/// 1.0 in 16.16 fixed point.
pub const UNIT: i64 = 65536;

/// Half of a full phase turn: phases run over `[0, PHASE_MOD)`.
pub const PHASE_HALF: u64 = 0x8000_0000;

/// One full phase turn (2^32): a phase accumulator wraps modulo this.
pub const PHASE_MOD: u64 = 0x1_0000_0000;

/// Hard bound on any value travelling through a voice's signal chain.
pub const CHAIN_CLAMP: i64 = 4194304;

/// `x * g / UNIT`, rounded toward zero; `g` is a non-negative gain.
pub open spec fn scale_spec(x: int, g: int) -> int {
    if x >= 0 {
        (x * g) / (UNIT as int)
    } else {
        -(((-x) * g) / (UNIT as int))
    }
}

/// `(a + b) / 2`, rounded toward zero.
pub open spec fn half_spec(x: int) -> int {
    if x >= 0 {
        x / 2
    } else {
        -((-x) / 2)
    }
}

/// Clamp `x` into `[-b, b]`.
pub open spec fn clamp_spec(x: int, b: int) -> int {
    if x < -b {
        -b
    } else if x > b {
        b
    } else {
        x
    }
}

/// A parabolic approximation of `UNIT * sin(2*pi*p / PHASE_MOD)`: each half
/// cycle is the arc `4*x*(UNIT - x) / UNIT` over `x` in `[0, UNIT)`, positive
/// on the first half turn and negative on the second.
pub open spec fn sine_spec(p: int) -> int {
    if p < PHASE_HALF {
        let x = p / 32768;
        (4 * x * (65536 - x)) / 65536
    } else {
        let x = (p - PHASE_HALF) / 32768;
        -((4 * x * (65536 - x)) / 65536)
    }
}

/// A quotient of a value bounded by `c * d` is bounded by `c`.
pub proof fn lemma_div_le_bound(x: int, c: int, d: int)
    requires
        0 <= x,
        x <= c * d,
        0 < d,
    ensures
        0 <= x / d <= c,
{
    vstd::arithmetic::div_mod::lemma_div_is_ordered(0, x, d);
    vstd::arithmetic::div_mod::lemma_div_is_ordered(x, c * d, d);
    assert((c * d) / d == c) by (nonlinear_arith)
        requires 0 < d;
}

/// The magnitude of a scaled value never exceeds the magnitude of the input.
pub proof fn lemma_scale_abs_le(x: int, g: int)
    requires
        0 <= g <= UNIT as int,
    ensures
        x >= 0 ==> 0 <= scale_spec(x, g) <= x,
        x < 0 ==> x <= scale_spec(x, g) <= 0,
{
    if x >= 0 {
        assert(x * g <= x * 65536) by (nonlinear_arith)
            requires 0 <= g <= 65536 && x >= 0;
        assert(0 <= x * g) by (nonlinear_arith)
            requires x >= 0 && g >= 0;
        assert((x * g) / 65536 <= (x * 65536) / 65536) by {
            vstd::arithmetic::div_mod::lemma_div_is_ordered(x * g, x * 65536, 65536);
        }
        assert((x * 65536) / 65536 == x) by (nonlinear_arith);
    } else {
        let y = -x;
        assert(y * g <= y * 65536) by (nonlinear_arith)
            requires 0 <= g <= 65536 && y >= 0;
        assert(0 <= y * g) by (nonlinear_arith)
            requires y >= 0 && g >= 0;
        assert((y * g) / 65536 <= (y * 65536) / 65536) by {
            vstd::arithmetic::div_mod::lemma_div_is_ordered(y * g, y * 65536, 65536);
        }
        assert((y * 65536) / 65536 == y) by (nonlinear_arith);
    }
}

/// Scaling by a zero gain gives silence.
pub proof fn lemma_scale_zero(x: int)
    ensures
        scale_spec(x, 0) == 0,
{
    if x >= 0 {
        assert(x * 0 == 0) by (nonlinear_arith);
    } else {
        assert((-x) * 0 == 0) by (nonlinear_arith);
    }
}

/// A scaled value is bounded by the product of the operand bounds.
pub proof fn lemma_scale_product_bound(x: int, g: int, bx: int, bg: int)
    requires
        -bx <= x <= bx,
        0 <= g <= bg,
    ensures
        -((bx * bg) / (UNIT as int)) <= scale_spec(x, g) <= (bx * bg) / (UNIT as int),
{
    if x >= 0 {
        assert(0 <= x * g <= bx * bg) by (nonlinear_arith)
            requires 0 <= x <= bx && 0 <= g <= bg;
        vstd::arithmetic::div_mod::lemma_div_is_ordered(x * g, bx * bg, 65536);
        assert((x * g) / 65536 >= 0) by {
            vstd::arithmetic::div_mod::lemma_div_is_ordered(0, x * g, 65536);
        }
    } else {
        let y = -x;
        assert(0 <= y * g <= bx * bg) by (nonlinear_arith)
            requires 0 <= y <= bx && 0 <= g <= bg;
        vstd::arithmetic::div_mod::lemma_div_is_ordered(y * g, bx * bg, 65536);
        assert((y * g) / 65536 >= 0) by {
            vstd::arithmetic::div_mod::lemma_div_is_ordered(0, y * g, 65536);
        }
    }
}

/// The parabolic sine stays within one unit of amplitude.
pub proof fn lemma_sine_bounds(p: int)
    requires
        0 <= p < PHASE_MOD as int,
    ensures
        -(UNIT as int) <= sine_spec(p) <= UNIT as int,
{
    if p < PHASE_HALF {
        let x = p / 32768;
        assert(0 <= x < 65536);
        assert(0 <= 4 * x * (65536 - x) <= 65536 * 65536) by (nonlinear_arith)
            requires 0 <= x < 65536;
        vstd::arithmetic::div_mod::lemma_div_is_ordered(4 * x * (65536 - x), (65536 * 65536) as int, 65536);
        assert((65536 * 65536) / 65536 == 65536) by (nonlinear_arith);
    } else {
        let x = (p - PHASE_HALF) / 32768;
        assert(0 <= x < 65536);
        assert(0 <= 4 * x * (65536 - x) <= 65536 * 65536) by (nonlinear_arith)
            requires 0 <= x < 65536;
        vstd::arithmetic::div_mod::lemma_div_is_ordered(4 * x * (65536 - x), (65536 * 65536) as int, 65536);
        assert((65536 * 65536) / 65536 == 65536) by (nonlinear_arith);
    }
}

/// Scale a sample by a gain in `[0, UNIT]`, rounding toward zero.
pub fn scale_q(x: i64, g: i64) -> (r: i64)
    requires
        -0x100_0000_0000 <= x <= 0x100_0000_0000,
        0 <= g <= UNIT,
    ensures
        r == scale_spec(x as int, g as int),
        x >= 0 ==> 0 <= r <= x,
        x < 0 ==> x <= r <= 0,
{
    proof {
        lemma_scale_abs_le(x as int, g as int);
    }
    if x >= 0 {
        let m: u64 = ((x as u64) * (g as u64)) / 65536;
        m as i64
    } else {
        let m: u64 = (((-x) as u64) * (g as u64)) / 65536;
        -(m as i64)
    }
}

/// Halve a sample, rounding toward zero.
pub fn half_q(x: i64) -> (r: i64)
    requires
        -0x4000_0000_0000_0000 <= x <= 0x4000_0000_0000_0000,
    ensures
        r == half_spec(x as int),
        x >= 0 ==> 0 <= r <= x,
        x < 0 ==> x <= r <= 0,
{
    if x >= 0 {
        x / 2
    } else {
        -((-x) / 2)
    }
}

/// Clamp a sample into `[-b, b]`.
pub fn clamp_q(x: i64, b: i64) -> (r: i64)
    requires
        0 <= b,
    ensures
        r == clamp_spec(x as int, b as int),
        -b <= r <= b,
{
    if x < -b {
        -b
    } else if x > b {
        b
    } else {
        x
    }
}

/// The parabolic sine of a phase in `[0, PHASE_MOD)`, in `[-UNIT, UNIT]`.
pub fn sine_q(p: u64) -> (r: i64)
    requires
        p < PHASE_MOD,
    ensures
        r == sine_spec(p as int),
        -UNIT <= r <= UNIT,
{
    proof {
        lemma_sine_bounds(p as int);
    }
    if p < PHASE_HALF {
        let x: u64 = p / 32768;
        let m: u64 = (4 * x * (65536 - x)) / 65536;
        m as i64
    } else {
        let x: u64 = (p - PHASE_HALF) / 32768;
        let m: u64 = (4 * x * (65536 - x)) / 65536;
        -(m as i64)
    }
}

} // verus!
