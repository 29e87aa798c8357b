//! The engine's sine: a quarter-turn parabola in Q32.32.
//!
//! `sine_spec(p)` approximates `sin(2*pi*p)` for a phase `p` in [0, 1) by
//! the parabola `16 * p * (1/2 - p)` on the first half turn and its mirror
//! image on the second. The parabola passes exactly through 0 at the turn
//! boundaries and through +/-1 at the quarter turns, which is all the
//! 8-bit-styled signal path asks of it. The cosine is the same curve a
//! quarter turn ahead.

use vstd::prelude::*;

verus! {

use crate::fx::{
    FX_ONE,
    FX_HALF,
    FX_QUARTER,
    fx_mul,
    fx_mul_spec,
    fx_mul_fits,
    trunc_div,
    lemma_trunc_div_le,
};

/// The parabolic sine of a whole turn; `p` ranges over [0, FX_ONE).
pub open spec fn sine_spec(p: int) -> int {
    if p < FX_HALF {
        16 * fx_mul_spec(p, FX_HALF - p)
    } else {
        -16 * fx_mul_spec(p - FX_HALF, FX_ONE - p)
    }
}

/// The matching cosine: the sine a quarter turn ahead.
pub open spec fn cosine_spec(p: int) -> int {
    if p + FX_QUARTER < FX_ONE {
        sine_spec(p + FX_QUARTER)
    } else {
        sine_spec(p + FX_QUARTER - FX_ONE)
    }
}

/// A product of two factors of a half-turn sums to at most the square of
/// the quarter turn, so the parabola peaks at one.
proof fn lemma_parabola_peak(x: int)
    requires
        0 <= x <= FX_HALF,
    ensures
        fx_mul_fits(x, FX_HALF as int - x),
        0 <= fx_mul_spec(x, FX_HALF as int - x) <= FX_QUARTER as int / 4,
{
    assert(0 <= x * (FX_HALF as int - x) <= 0x1000000000000000) by (nonlinear_arith)
        requires
            0 <= x <= FX_HALF,
    ;
    lemma_trunc_div_le(x * (FX_HALF as int - x), FX_ONE as int, FX_QUARTER as int / 4);
}

/// The sine never leaves [-1, 1].
pub proof fn lemma_sine_bounds(p: int)
    requires
        0 <= p < FX_ONE,
    ensures
        -FX_ONE <= sine_spec(p) <= FX_ONE,
        p < FX_HALF ==> sine_spec(p) >= 0,
        p >= FX_HALF ==> sine_spec(p) <= 0,
{
    if p < FX_HALF {
        lemma_parabola_peak(p);
    } else {
        lemma_parabola_peak(p - FX_HALF);
    }
}

/// The parabolic sine of a whole turn.
pub fn sine_fx(p: i64) -> (r: i64)
    requires
        0 <= p < FX_ONE,
    ensures
        r == sine_spec(p as int),
        -FX_ONE <= r <= FX_ONE,
{
    proof {
        lemma_sine_bounds(p as int);
    }
    if p < FX_HALF {
        proof {
            lemma_parabola_peak(p as int);
        }
        16 * fx_mul(p, FX_HALF - p)
    } else {
        proof {
            lemma_parabola_peak(p as int - FX_HALF);
        }
        -16 * fx_mul(p - FX_HALF, FX_ONE - p)
    }
}

/// The cosine as the sine a quarter turn ahead.
pub fn cosine_fx(p: i64) -> (r: i64)
    requires
        0 <= p < FX_ONE,
    ensures
        r == cosine_spec(p as int),
        -FX_ONE <= r <= FX_ONE,
{
    if p + FX_QUARTER < FX_ONE {
        sine_fx(p + FX_QUARTER)
    } else {
        sine_fx(p + FX_QUARTER - FX_ONE)
    }
}

} // verus!
