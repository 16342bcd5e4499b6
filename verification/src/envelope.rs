//! Fade-in / fade-out amplitude envelopes.
//!
//! A voice's amplitude is the product of a rising ramp over the fade-in
//! window and a falling ramp over the fade-out window, each shaped by a
//! [`Fade`] curve: `Linear` is the straight ramp, `Smooth` the cubic
//! smoothstep `3x^2 - 2x^3`.  Both reach exactly `UNIT` (respectively zero)
//! at the end of their window, the rise is monotone while no release is
//! scheduled, and once the release window has passed the envelope is exactly
//! zero — which is what lets the sequencer drop the voice.

use vstd::prelude::*;
use crate::units::UNIT;

verus! {

/// The shape of an amplitude ramp.
#[derive(Clone, Copy, Debug, PartialEq, Eq, Structural)]
pub enum Fade {
    /// Straight interpolation.
    Linear,
    /// Cubic smoothstep interpolation.
    Smooth,
}

/// The ramp position for step `j` of a window of `f` steps, in `[0, UNIT]`.
pub open spec fn ramp_x_spec(j: int, f: int) -> int {
    if f <= 0 || j >= f {
        65536
    } else if j < 0 {
        0
    } else {
        (j * 65536) / f
    }
}

/// The smoothstep curve `3x^2 - 2x^3` over `[0, UNIT]`, in fixed point.
pub open spec fn smooth_spec(x: int) -> int {
    (x * x * (3 * 65536 - 2 * x)) / ((65536 * 65536) as int)
}

/// The rising ramp value for step `j` of a fade window of `f` steps.
pub open spec fn rise_spec(fade: Fade, j: int, f: int) -> int {
    match fade {
        Fade::Linear => ramp_x_spec(j, f),
        Fade::Smooth => smooth_spec(ramp_x_spec(j, f)),
    }
}

/// The full envelope at step `k` of a voice's life: the fade-in rise times
/// the fade-out fall, where the fall starts at the release step `rel`.
pub open spec fn env_spec(fade: Fade, fade_in: int, rel: Option<int>, fade_out: int, k: int) -> int {
    let rise = rise_spec(fade, k, fade_in);
    let fall = match rel {
        Option::None => 65536,
        Option::Some(r) =>
            if k < r {
                65536
            } else if k >= r + fade_out {
                0
            } else {
                65536 - rise_spec(fade, k - r, fade_out)
            },
    };
    (rise * fall) / 65536
}

/// The ramp position is monotone in the step and bounded by `UNIT`.
pub proof fn lemma_ramp_x_bounds(j: int, f: int)
    ensures
        0 <= ramp_x_spec(j, f) <= 65536,
{
    if f > 0 && 0 <= j < f {
        assert(j * 65536 <= 65536 * f) by (nonlinear_arith)
            requires 0 <= j <= f;
        crate::units::lemma_div_le_bound(j * 65536, 65536, f);
    }
}

/// The smoothstep numerator stays within `[0, UNIT^3]` on `[0, UNIT]`.
pub proof fn lemma_smooth_numerator_bounds(x: int)
    requires
        0 <= x <= 65536,
    ensures
        0 <= x * x * (3 * 65536 - 2 * x) <= 65536 * 65536 * 65536,
{
    assert(65536 * 65536 * 65536 - x * x * (3 * 65536 - 2 * x) == (65536 - x) * (65536 - x) * (
    65536 + 2 * x)) by (nonlinear_arith);
    assert((65536 - x) * (65536 - x) * (65536 + 2 * x) >= 0) by (nonlinear_arith)
        requires 0 <= x <= 65536;
    assert(0 <= x * x * (3 * 65536 - 2 * x)) by (nonlinear_arith)
        requires 0 <= x <= 65536;
}

/// The smoothstep stays within `[0, UNIT]` on `[0, UNIT]`.
pub proof fn lemma_smooth_bounds(x: int)
    requires
        0 <= x <= 65536,
    ensures
        0 <= smooth_spec(x) <= 65536,
{
    lemma_smooth_numerator_bounds(x);
    crate::units::lemma_div_le_bound(
        x * x * (3 * 65536 - 2 * x),
        65536,
        (65536 * 65536) as int,
    );
}

/// The smoothstep numerator is monotone on `[0, UNIT]`.
proof fn lemma_smooth_numerator_monotone(a: int, b: int)
    requires
        0 <= a <= b <= 65536,
    ensures
        a * a * (3 * 65536 - 2 * a) <= b * b * (3 * 65536 - 2 * b),
{
    assert(b * b * (3 * 65536 - 2 * b) - a * a * (3 * 65536 - 2 * a) == (b - a) * (3 * 65536 * (a
        + b) - 2 * (a * a + a * b + b * b))) by (nonlinear_arith);
    assert(2 * (a * a + a * b + b * b) <= 3 * 65536 * (a + b)) by (nonlinear_arith)
        requires 0 <= a <= 65536 && 0 <= b <= 65536;
    assert((b - a) * (3 * 65536 * (a + b) - 2 * (a * a + a * b + b * b)) >= 0) by (nonlinear_arith)
        requires b - a >= 0 && 3 * 65536 * (a + b) - 2 * (a * a + a * b + b * b) >= 0;
}

/// The rise is monotone in the step and bounded by `UNIT`.
pub proof fn lemma_rise_monotone(fade: Fade, j1: int, j2: int, f: int)
    requires
        j1 <= j2,
    ensures
        0 <= rise_spec(fade, j1, f) <= rise_spec(fade, j2, f) <= 65536,
{
    lemma_ramp_x_bounds(j1, f);
    lemma_ramp_x_bounds(j2, f);
    let x1 = ramp_x_spec(j1, f);
    let x2 = ramp_x_spec(j2, f);
    if f > 0 && 0 <= j1 && j2 < f {
        assert(j1 * 65536 <= j2 * 65536) by (nonlinear_arith)
            requires j1 <= j2;
        vstd::arithmetic::div_mod::lemma_div_is_ordered(j1 * 65536, j2 * 65536, f);
    }
    assert(x1 <= x2);
    match fade {
        Fade::Linear => {
        },
        Fade::Smooth => {
            lemma_smooth_numerator_monotone(x1, x2);
            vstd::arithmetic::div_mod::lemma_div_is_ordered(
                x1 * x1 * (3 * 65536 - 2 * x1),
                x2 * x2 * (3 * 65536 - 2 * x2),
                (65536 * 65536) as int,
            );
            lemma_smooth_bounds(x1);
            lemma_smooth_bounds(x2);
        },
    }
}

/// The rise reaches exactly `UNIT` once the window has elapsed.
pub proof fn lemma_rise_full(fade: Fade, j: int, f: int)
    requires
        j >= f || f <= 0,
    ensures
        rise_spec(fade, j, f) == 65536,
{
    assert(((65536 * 65536 * (3 * 65536 - 2 * 65536)) as int) / ((65536 * 65536) as int) == 65536)
        by (nonlinear_arith);
}

/// The envelope is always within `[0, UNIT]`.
pub proof fn lemma_env_bounds(fade: Fade, fade_in: int, rel: Option<int>, fade_out: int, k: int)
    ensures
        0 <= env_spec(fade, fade_in, rel, fade_out, k) <= 65536,
{
    lemma_rise_monotone(fade, k, k, fade_in);
    let rise = rise_spec(fade, k, fade_in);
    let fall = match rel {
        Option::None => 65536int,
        Option::Some(r) =>
            if k < r {
                65536int
            } else if k >= r + fade_out {
                0int
            } else {
                65536 - rise_spec(fade, k - r, fade_out)
            },
    };
    if rel is Some {
        let r = rel->0;
        if k >= r && k < r + fade_out {
            lemma_rise_monotone(fade, k - r, k - r, fade_out);
        }
    }
    assert(0 <= fall <= 65536);
    assert(0 <= rise * fall <= 65536 * 65536) by (nonlinear_arith)
        requires 0 <= rise <= 65536 && 0 <= fall <= 65536;
    crate::units::lemma_div_le_bound(rise * fall, 65536, 65536);
}

/// While no release is scheduled, the envelope is exactly the rise, so it
/// climbs monotonically through the fade-in window and never exceeds `UNIT`.
pub proof fn lemma_env_fade_in_monotone(fade: Fade, fade_in: int, fade_out: int, k1: int, k2: int)
    requires
        k1 <= k2,
    ensures
        env_spec(fade, fade_in, Option::None, fade_out, k1) <= env_spec(
            fade,
            fade_in,
            Option::None,
            fade_out,
            k2,
        ),
        env_spec(fade, fade_in, Option::None, fade_out, k2) <= 65536,
        env_spec(fade, fade_in, Option::None, fade_out, k1) == rise_spec(fade, k1, fade_in),
{
    lemma_rise_monotone(fade, k1, k2, fade_in);
    let r1 = rise_spec(fade, k1, fade_in);
    let r2 = rise_spec(fade, k2, fade_in);
    assert((r1 * 65536) / 65536 == r1) by (nonlinear_arith)
        requires 0 <= r1;
    assert((r2 * 65536) / 65536 == r2) by (nonlinear_arith)
        requires 0 <= r2;
}

/// Once the fade-out window has fully elapsed, the envelope is exactly zero.
pub proof fn lemma_env_after_release_zero(
    fade: Fade,
    fade_in: int,
    r: int,
    fade_out: int,
    k: int,
)
    requires
        k >= r + fade_out,
        k >= r,
    ensures
        env_spec(fade, fade_in, Option::Some(r), fade_out, k) == 0,
{
    let rise = rise_spec(fade, k, fade_in);
    assert((rise * 0) / 65536 == 0) by (nonlinear_arith);
}

/// The envelope of a voice at step `k`, executable form.
pub fn envelope_at(fade: Fade, fade_in: u64, rel: Option<u64>, fade_out: u64, k: u64) -> (e: i64)
    requires
        fade_in <= 0x1_0000_0000,
        fade_out <= 0x1_0000_0000,
    ensures
        e == env_spec(
            fade,
            fade_in as int,
            match rel {
                Option::None => Option::None,
                Option::Some(r) => Option::Some(r as int),
            },
            fade_out as int,
            k as int,
        ),
        0 <= e <= UNIT,
{
    proof {
        lemma_env_bounds(
            fade,
            fade_in as int,
            match rel {
                Option::None => Option::<int>::None,
                Option::Some(r) => Option::Some(r as int),
            },
            fade_out as int,
            k as int,
        );
    }
    let rise: u64 = rise_at(fade, k, fade_in);
    let fall: u64 = match rel {
        Option::None => 65536,
        Option::Some(r) => {
            if k < r {
                65536
            } else if k - r >= fade_out {
                0
            } else {
                65536 - rise_at(fade, k - r, fade_out)
            }
        },
    };
    ((rise * fall) / 65536) as i64
}

/// The rising ramp at step `j` of a window of `f` steps, executable form.
fn rise_at(fade: Fade, j: u64, f: u64) -> (r: u64)
    requires
        f <= 0x1_0000_0000,
    ensures
        r == rise_spec(fade, j as int, f as int),
        r <= 65536,
{
    proof {
        lemma_rise_monotone(fade, j as int, j as int, f as int);
    }
    if j >= f {
        proof {
            lemma_rise_full(fade, j as int, f as int);
        }
        let x: u64 = 65536;
        match fade {
            Fade::Linear => x,
            Fade::Smooth => (x * x * (3 * 65536 - 2 * x)) / (65536 * 65536),
        }
    } else {
        proof {
            assert((j as int) * 65536 <= 65536 * (f as int)) by (nonlinear_arith)
                requires 0 <= j <= f;
            crate::units::lemma_div_le_bound((j as int) * 65536, 65536, f as int);
        }
        let x: u64 = (j * 65536) / f;
        proof {
            lemma_smooth_numerator_bounds(x as int);
            assert((x as int) * (x as int) <= 65536 * 65536) by (nonlinear_arith)
                requires 0 <= x <= 65536;
        }
        match fade {
            Fade::Linear => x,
            Fade::Smooth => {
                let a: u64 = x * x;
                let b: u64 = 3 * 65536 - 2 * x;
                proof {
                    assert((a as int) * (b as int) == (x as int) * (x as int) * (3 * 65536 - 2 * (
                    x as int))) by (nonlinear_arith)
                        requires a == x * x && b == 3 * 65536 - 2 * x;
                }
                (a * b) / (65536 * 65536)
            },
        }
    }
}

} // verus!
