//! Signed Q32.32 fixed-point arithmetic: the number format of the whole
//! signal path. A value `v` stands for the real number `v / 2^32`, so
//! `FX_ONE` is 1.0. Products and quotients truncate toward zero, exactly as
//! the executable operations do, and every contract in the crate is stated
//! over the spec-level forms `fx_mul_spec` and `fx_div_spec` defined here.

use vstd::prelude::*;

verus! {

use vstd::arithmetic::div_mod::{
    lemma_div_pos_is_pos,
    lemma_div_by_multiple,
    lemma_div_is_ordered_by_denominator,
    lemma_multiply_divide_le,
    lemma_multiply_divide_lt,
};

/// 2^32: the number one in Q32.32.
pub const FX_ONE: i64 = 4294967296;

/// 2^31: one half in Q32.32.
pub const FX_HALF: i64 = 2147483648;

/// 2^30: one quarter in Q32.32.
pub const FX_QUARTER: i64 = 1073741824;

/// Division that truncates toward zero (the behaviour of `/` on machine
/// integers), written over Euclidean `/` for a positive divisor `b`.
pub open spec fn trunc_div(a: int, b: int) -> int {
    if a >= 0 {
        a / b
    } else {
        -((-a) / b)
    }
}

/// The Q32.32 product: `a * b` rescaled by 2^32, truncating toward zero.
pub open spec fn fx_mul_spec(a: int, b: int) -> int {
    trunc_div(a * b, FX_ONE as int)
}

/// The Q32.32 quotient: `a / b` rescaled by 2^32, truncating toward zero.
/// Meaningful only for `b > 0`.
pub open spec fn fx_div_spec(a: int, b: int) -> int {
    trunc_div(a * (FX_ONE as int), b)
}

/// Clamping to a closed interval.
pub open spec fn clamp_spec(x: int, lo: int, hi: int) -> int {
    if x < lo {
        lo
    } else if x > hi {
        hi
    } else {
        x
    }
}

/// The scaled product fits an `i64` whenever the raw product stays below
/// 2^94 in magnitude.
pub open spec fn fx_mul_fits(a: int, b: int) -> bool {
    -0x400000000000000000000000 <= a * b <= 0x400000000000000000000000
}

/// A bound on the dividend, as a multiple of the divisor, bounds the
/// truncating quotient.
pub proof fn lemma_trunc_div_le(p: int, d: int, c: int)
    requires
        0 < d,
        0 <= c,
        -(d * c) <= p <= d * c,
    ensures
        -c <= trunc_div(p, d) <= c,
{
    if p >= 0 {
        lemma_div_pos_is_pos(p, d);
        lemma_multiply_divide_le(p, d, c);
    } else {
        lemma_div_pos_is_pos(-p, d);
        lemma_multiply_divide_le(-p, d, c);
    }
}

/// Bounds on the factors bound the scaled product: from `|a| <= am`,
/// `|b| <= bm` and `am * bm <= c * 2^32` follows `|fx_mul_spec(a, b)| <= c`.
pub proof fn lemma_fx_mul_le(a: int, b: int, am: int, bm: int, c: int)
    requires
        -am <= a <= am,
        -bm <= b <= bm,
        0 <= am,
        0 <= bm,
        0 <= c <= 0x4000000000000000,
        am * bm <= (FX_ONE as int) * c,
    ensures
        fx_mul_fits(a, b),
        -c <= fx_mul_spec(a, b) <= c,
{
    assert(-(am * bm) <= a * b <= am * bm) by (nonlinear_arith)
        requires
            -am <= a <= am,
            -bm <= b <= bm,
            0 <= am,
            0 <= bm,
    ;
    lemma_trunc_div_le(a * b, FX_ONE as int, c);
}

/// Scaling by a factor between zero and one keeps a nonnegative value
/// between zero and itself.
pub proof fn lemma_fx_mul_unit(a: int, b: int)
    requires
        0 <= a <= 0x4000000000000000,
        0 <= b <= FX_ONE as int,
    ensures
        fx_mul_fits(a, b),
        0 <= fx_mul_spec(a, b) <= a,
{
    assert(0 <= a * b <= (FX_ONE as int) * a) by (nonlinear_arith)
        requires
            0 <= a,
            0 <= b <= FX_ONE as int,
    ;
    lemma_div_pos_is_pos(a * b, FX_ONE as int);
    lemma_multiply_divide_le(a * b, FX_ONE as int, a);
}

/// A product of nonnegative factors scales to a nonnegative value.
pub proof fn lemma_fx_mul_nonneg(a: int, b: int)
    requires
        0 <= a,
        0 <= b,
    ensures
        0 <= fx_mul_spec(a, b),
{
    assert(0 <= a * b) by (nonlinear_arith)
        requires
            0 <= a,
            0 <= b,
    ;
    lemma_div_pos_is_pos(a * b, FX_ONE as int);
}

/// A product of a nonpositive and a nonnegative factor scales to a
/// nonpositive value.
pub proof fn lemma_fx_mul_nonpos(a: int, b: int)
    requires
        a <= 0,
        0 <= b,
    ensures
        fx_mul_spec(a, b) <= 0,
{
    assert(a * b <= 0) by (nonlinear_arith)
        requires
            a <= 0,
            0 <= b,
    ;
    lemma_div_pos_is_pos(-(a * b), FX_ONE as int);
}

/// A quotient by a divisor of at least one (in Q32.32) never grows the
/// magnitude.
pub proof fn lemma_fx_div_unit(a: int, b: int, am: int)
    requires
        -am <= a <= am,
        0 <= am,
        FX_ONE as int <= b,
    ensures
        -am <= fx_div_spec(a, b) <= am,
        0 <= a ==> 0 <= fx_div_spec(a, b),
{
    let f = FX_ONE as int;
    if a >= 0 {
        lemma_div_pos_is_pos(a * f, b);
        lemma_div_is_ordered_by_denominator(a * f, f, b);
        lemma_div_by_multiple(a, f);
    } else {
        lemma_div_pos_is_pos((-a) * f, b);
        lemma_div_is_ordered_by_denominator((-a) * f, f, b);
        lemma_div_by_multiple(-a, f);
    }
}

/// A quotient of nonnegative values below the divisor stays below one.
pub proof fn lemma_fx_div_below_one(a: int, b: int)
    requires
        0 <= a < b,
    ensures
        0 <= fx_div_spec(a, b) < FX_ONE as int,
    decreases 0int,
{
    let f = FX_ONE as int;
    lemma_div_pos_is_pos(a * f, b);
    assert(a * f < b * f) by (nonlinear_arith)
        requires
            0 <= a < b,
            0 < f,
    ;
    lemma_multiply_divide_lt(a * f, b, f);
}

/// The fixed-point product, truncating toward zero.
pub fn fx_mul(a: i64, b: i64) -> (r: i64)
    requires
        fx_mul_fits(a as int, b as int),
    ensures
        r == fx_mul_spec(a as int, b as int),
{
    let p: i128 = (a as i128) * (b as i128);
    let q: i128 = p / (FX_ONE as i128);
    proof {
        lemma_trunc_div_le(p as int, FX_ONE as int, 0x4000000000000000);
        assert(q == trunc_div(p as int, FX_ONE as int));
    }
    q as i64
}

/// The fixed-point quotient, truncating toward zero; the caller shows that
/// the scaled quotient fits an `i64`.
pub fn fx_div(a: i64, b: i64) -> (r: i64)
    requires
        b > 0,
        i64::MIN <= fx_div_spec(a as int, b as int) <= i64::MAX,
    ensures
        r == fx_div_spec(a as int, b as int),
{
    let p: i128 = (a as i128) * (FX_ONE as i128);
    let q: i128 = p / (b as i128);
    q as i64
}

/// Clamping to a closed interval.
pub fn fx_clamp(x: i64, lo: i64, hi: i64) -> (r: i64)
    requires
        lo <= hi,
    ensures
        r == clamp_spec(x as int, lo as int, hi as int),
        lo <= r <= hi,
{
    if x < lo {
        lo
    } else if x > hi {
        hi
    } else {
        x
    }
}

} // verus!
