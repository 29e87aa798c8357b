//! The resonant biquad filter: one second-order IIR section whose five
//! coefficients are rederived from cutoff and resonance on every sample,
//! never cached across parameter changes.
//!
//! The normalized cutoff in [0, 1] maps linearly to 30 Hz - 20 kHz; the
//! resonance maps to a quality factor `q = 0.5 + resonance * 15`. From the
//! angular frequency's sine and cosine and `alpha = sin / (2 q)` the
//! standard normalized biquad coefficients follow for each response kind.
//! The output and the output history are clamped to [-2, 2], which keeps
//! self-oscillation bounded however the parameters move.

use vstd::prelude::*;

verus! {

use crate::fx::{
    FX_ONE,
    FX_HALF,
    fx_mul,
    fx_div,
    fx_clamp,
    fx_mul_spec,
    fx_div_spec,
    clamp_spec,
    lemma_fx_mul_le,
    lemma_fx_mul_unit,
    lemma_fx_mul_nonneg,
    lemma_fx_div_unit,
};
use crate::trig::{sine_fx, cosine_fx, sine_spec, cosine_spec, lemma_sine_bounds};
use crate::SAMPLE_RATE;

/// The four filter responses; any other selector code falls back to the
/// band-reject (notch) response, as the selector mapping in `apu` states.
#[derive(Clone, Copy, PartialEq, Eq, Structural, Debug)]
pub enum FilterKind {
    Lowpass,
    Highpass,
    Bandpass,
    Notch,
}

/// A biquad filter stage: parameters, two samples of input and output
/// history, and the five coefficients last derived from the parameters.
pub struct ResonantFilter {
    pub enabled: bool,
    pub kind: FilterKind,
    /// Normalized cutoff in [0, 1].
    pub cutoff: i64,
    /// Resonance in [0, 10]; the two public control paths clamp it to
    /// [0, 1] and [0, 10] respectively.
    pub resonance: i64,
    pub x1: i64,
    pub x2: i64,
    pub y1: i64,
    pub y2: i64,
    pub a0: i64,
    pub a1: i64,
    pub a2: i64,
    pub b1: i64,
    pub b2: i64,
}

/// The numeric filter selector codes of the control surface; anything
/// past the three pass responses selects the notch.
pub open spec fn filter_kind_of_code(code: int) -> FilterKind {
    if code == 0 {
        FilterKind::Lowpass
    } else if code == 1 {
        FilterKind::Highpass
    } else if code == 2 {
        FilterKind::Bandpass
    } else {
        FilterKind::Notch
    }
}

/// Decodes a filter selector byte.
pub fn filter_kind_from_code(code: u8) -> (k: FilterKind)
    ensures
        k == filter_kind_of_code(code as int),
{
    if code == 0 {
        FilterKind::Lowpass
    } else if code == 1 {
        FilterKind::Highpass
    } else if code == 2 {
        FilterKind::Bandpass
    } else {
        FilterKind::Notch
    }
}

/// The cutoff mapped linearly to Q32.32 hertz in [30, 20000].
pub open spec fn filter_freq(cutoff: int) -> int {
    30 * (FX_ONE as int) + fx_mul_spec(cutoff, 85770496901120)
}

/// The angular frequency as a fraction of a turn: frequency over sample
/// rate, staying below a half turn.
pub open spec fn omega_turns(cutoff: int) -> int {
    filter_freq(cutoff) / (SAMPLE_RATE as int)
}

/// The quality factor `0.5 + resonance * 15`.
pub open spec fn filter_q(resonance: int) -> int {
    FX_HALF as int + fx_mul_spec(resonance, 64424509440)
}

/// `alpha = sin(omega) / (2 q)`.
pub open spec fn filter_alpha(cutoff: int, resonance: int) -> int {
    fx_div_spec(sine_spec(omega_turns(cutoff)), 2 * filter_q(resonance))
}

/// The common normalization `1 + alpha` of all coefficients.
pub open spec fn filter_norm(cutoff: int, resonance: int) -> int {
    FX_ONE as int + filter_alpha(cutoff, resonance)
}

pub open spec fn coef_a0(kind: FilterKind, cutoff: int, resonance: int) -> int {
    let sw = sine_spec(omega_turns(cutoff));
    let cw = cosine_spec(omega_turns(cutoff));
    let n = filter_norm(cutoff, resonance);
    match kind {
        FilterKind::Lowpass => fx_div_spec(fx_mul_spec(FX_ONE as int - cw, FX_HALF as int), n),
        FilterKind::Highpass => fx_div_spec(fx_mul_spec(FX_ONE as int + cw, FX_HALF as int), n),
        FilterKind::Bandpass => fx_div_spec(fx_mul_spec(sw, FX_HALF as int), n),
        FilterKind::Notch => fx_div_spec(FX_ONE as int, n),
    }
}

pub open spec fn coef_a1(kind: FilterKind, cutoff: int, resonance: int) -> int {
    let cw = cosine_spec(omega_turns(cutoff));
    let n = filter_norm(cutoff, resonance);
    match kind {
        FilterKind::Lowpass => fx_div_spec(FX_ONE as int - cw, n),
        FilterKind::Highpass => fx_div_spec(-(FX_ONE as int + cw), n),
        FilterKind::Bandpass => 0,
        FilterKind::Notch => fx_div_spec(-2 * cw, n),
    }
}

pub open spec fn coef_a2(kind: FilterKind, cutoff: int, resonance: int) -> int {
    let sw = sine_spec(omega_turns(cutoff));
    let cw = cosine_spec(omega_turns(cutoff));
    let n = filter_norm(cutoff, resonance);
    match kind {
        FilterKind::Lowpass => fx_div_spec(fx_mul_spec(FX_ONE as int - cw, FX_HALF as int), n),
        FilterKind::Highpass => fx_div_spec(fx_mul_spec(FX_ONE as int + cw, FX_HALF as int), n),
        FilterKind::Bandpass => fx_div_spec(-fx_mul_spec(sw, FX_HALF as int), n),
        FilterKind::Notch => fx_div_spec(FX_ONE as int, n),
    }
}

pub open spec fn coef_b1(cutoff: int, resonance: int) -> int {
    let cw = cosine_spec(omega_turns(cutoff));
    fx_div_spec(-2 * cw, filter_norm(cutoff, resonance))
}

pub open spec fn coef_b2(cutoff: int, resonance: int) -> int {
    let n = filter_norm(cutoff, resonance);
    fx_div_spec(FX_ONE as int - filter_alpha(cutoff, resonance), n)
}

/// A cutoff given in Q32.32 hertz, normalized against half the sample
/// rate and capped at one.
pub open spec fn normalized_cutoff_spec(hz: int) -> int {
    if fx_div_spec(hz, 94704028876800) > FX_ONE {
        FX_ONE as int
    } else {
        fx_div_spec(hz, 94704028876800)
    }
}

/// Normalizes a nonnegative cutoff in Q32.32 hertz into [0, 1].
pub fn normalized_cutoff(hz: i64) -> (r: i64)
    requires
        0 <= hz,
    ensures
        r == normalized_cutoff_spec(hz as int),
        0 <= r <= FX_ONE,
{
    proof {
        lemma_fx_div_unit(hz as int, 94704028876800, 0x7fffffffffffffff);
    }
    let n: i64 = fx_div(hz, 94704028876800);
    if n > FX_ONE {
        FX_ONE
    } else {
        n
    }
}

/// A filter stage after one parameter write plus coefficient
/// rederivation: the given kind, cutoff and resonance with the five
/// coefficients derived from them; routing and histories untouched.
pub open spec fn filter_with_params(
    f: ResonantFilter,
    kind: FilterKind,
    cutoff: int,
    resonance: int,
) -> ResonantFilter {
    ResonantFilter {
        kind: kind,
        cutoff: cutoff as i64,
        resonance: resonance as i64,
        a0: coef_a0(kind, cutoff, resonance) as i64,
        a1: coef_a1(kind, cutoff, resonance) as i64,
        a2: coef_a2(kind, cutoff, resonance) as i64,
        b1: coef_b1(cutoff, resonance) as i64,
        b2: coef_b2(cutoff, resonance) as i64,
        ..f
    }
}

/// Well-formedness: parameters in range, histories and coefficients
/// bounded by two.
#[verifier::opaque]
pub open spec fn filter_wf(f: ResonantFilter) -> bool {
    &&& 0 <= f.cutoff <= FX_ONE
    &&& 0 <= f.resonance <= 10 * (FX_ONE as int)
    &&& -2 * (FX_ONE as int) <= f.x1 <= 2 * (FX_ONE as int)
    &&& -2 * (FX_ONE as int) <= f.x2 <= 2 * (FX_ONE as int)
    &&& -2 * (FX_ONE as int) <= f.y1 <= 2 * (FX_ONE as int)
    &&& -2 * (FX_ONE as int) <= f.y2 <= 2 * (FX_ONE as int)
    &&& -2 * (FX_ONE as int) <= f.a0 <= 2 * (FX_ONE as int)
    &&& -2 * (FX_ONE as int) <= f.a1 <= 2 * (FX_ONE as int)
    &&& -2 * (FX_ONE as int) <= f.a2 <= 2 * (FX_ONE as int)
    &&& -2 * (FX_ONE as int) <= f.b1 <= 2 * (FX_ONE as int)
    &&& -2 * (FX_ONE as int) <= f.b2 <= 2 * (FX_ONE as int)
}

/// The raw biquad response before clamping:
/// `a0 x + a1 x1 + a2 x2 - b1 y1 - b2 y2`.
pub open spec fn biquad_out(f: ResonantFilter, x: int) -> int {
    fx_mul_spec(f.a0 as int, x) + fx_mul_spec(f.a1 as int, f.x1 as int) + fx_mul_spec(
        f.a2 as int,
        f.x2 as int,
    ) - fx_mul_spec(f.b1 as int, f.y1 as int) - fx_mul_spec(f.b2 as int, f.y2 as int)
}

/// The biquad response over the current histories with the coefficients
/// freshly derived from the current parameters — what one oscillator step
/// (coefficient update, then application) computes.
pub open spec fn filter_response(f: ResonantFilter, x: int) -> int {
    fx_mul_spec(coef_a0(f.kind, f.cutoff as int, f.resonance as int), x) + fx_mul_spec(
        coef_a1(f.kind, f.cutoff as int, f.resonance as int),
        f.x1 as int,
    ) + fx_mul_spec(coef_a2(f.kind, f.cutoff as int, f.resonance as int), f.x2 as int)
        - fx_mul_spec(coef_b1(f.cutoff as int, f.resonance as int), f.y1 as int) - fx_mul_spec(
        coef_b2(f.cutoff as int, f.resonance as int),
        f.y2 as int,
    )
}

/// The sample leaving the filter stage of one oscillator step: the input
/// untouched when the filter is bypassed, else the clamped fresh response.
pub open spec fn filter_step_out(f: ResonantFilter, x: int) -> int {
    if !f.enabled {
        x
    } else {
        clamp_spec(filter_response(f, x), -2 * (FX_ONE as int), 2 * (FX_ONE as int))
    }
}

/// A filter with sound parameters and bounded state, as the constructors
/// build it.
pub fn filter_new(enabled: bool, kind: FilterKind, cutoff: i64, resonance: i64) -> (f:
    ResonantFilter)
    requires
        0 <= cutoff <= FX_ONE,
        0 <= resonance <= 10 * (FX_ONE as int),
    ensures
        filter_wf(f),
        f.enabled == enabled,
        f.kind == kind,
        f.cutoff == cutoff,
        f.resonance == resonance,
        f.x1 == 0 && f.x2 == 0 && f.y1 == 0 && f.y2 == 0,
        f.a0 == FX_ONE && f.a1 == 0 && f.a2 == 0 && f.b1 == 0 && f.b2 == 0,
{
    proof {
        reveal(filter_wf);
    }
    ResonantFilter {
        enabled,
        kind,
        cutoff,
        resonance,
        x1: 0,
        x2: 0,
        y1: 0,
        y2: 0,
        a0: FX_ONE,
        a1: 0,
        a2: 0,
        b1: 0,
        b2: 0,
    }
}

/// Rederives the five biquad coefficients from the filter's cutoff,
/// resonance and kind. Every other field is left alone.
pub fn update_filter_coefficients(f: &mut ResonantFilter)
    requires
        filter_wf(*old(f)),
    ensures
        filter_wf(*final(f)),
        final(f).enabled == old(f).enabled,
        final(f).kind == old(f).kind,
        final(f).cutoff == old(f).cutoff,
        final(f).resonance == old(f).resonance,
        final(f).x1 == old(f).x1 && final(f).x2 == old(f).x2,
        final(f).y1 == old(f).y1 && final(f).y2 == old(f).y2,
        final(f).a0 == coef_a0(old(f).kind, old(f).cutoff as int, old(f).resonance as int),
        final(f).a1 == coef_a1(old(f).kind, old(f).cutoff as int, old(f).resonance as int),
        final(f).a2 == coef_a2(old(f).kind, old(f).cutoff as int, old(f).resonance as int),
        final(f).b1 == coef_b1(old(f).cutoff as int, old(f).resonance as int),
        final(f).b2 == coef_b2(old(f).cutoff as int, old(f).resonance as int),
{
    proof {
        reveal(filter_wf);
        lemma_fx_mul_le(f.cutoff as int, 85770496901120, 4294967296, 85770496901120,
            85770496901120);
        lemma_fx_mul_nonneg(f.cutoff as int, 85770496901120);
    }
    let freq: i64 = 30 * FX_ONE + fx_mul(f.cutoff, 85770496901120);
    let t: i64 = freq / SAMPLE_RATE;
    proof {
        vstd::arithmetic::div_mod::lemma_div_pos_is_pos(freq as int, SAMPLE_RATE as int);
        vstd::arithmetic::div_mod::lemma_multiply_divide_lt(
            freq as int,
            SAMPLE_RATE as int,
            FX_HALF as int,
        );
        lemma_sine_bounds(t as int);
    }
    let sin_omega: i64 = sine_fx(t);
    let cos_omega: i64 = cosine_fx(t);
    proof {
        lemma_fx_mul_le(f.resonance as int, 64424509440, 42949672960, 64424509440,
            644245094400);
        lemma_fx_mul_nonneg(f.resonance as int, 64424509440);
    }
    let q: i64 = FX_HALF + fx_mul(f.resonance, 64424509440);
    proof {
        lemma_fx_div_unit(sin_omega as int, 2 * q as int, FX_ONE as int);
    }
    let alpha: i64 = fx_div(sin_omega, 2 * q);
    let norm: i64 = FX_ONE + alpha;
    proof {
        lemma_fx_mul_unit(FX_ONE as int - cos_omega as int, FX_HALF as int);
        lemma_fx_mul_unit(FX_ONE as int + cos_omega as int, FX_HALF as int);
        if sin_omega >= 0 {
            lemma_fx_mul_unit(sin_omega as int, FX_HALF as int);
        }
        lemma_fx_div_unit(fx_mul_spec(FX_ONE as int - cos_omega as int, FX_HALF as int),
            norm as int, 2 * (FX_ONE as int));
        lemma_fx_div_unit(fx_mul_spec(FX_ONE as int + cos_omega as int, FX_HALF as int),
            norm as int, 2 * (FX_ONE as int));
        lemma_fx_div_unit(fx_mul_spec(sin_omega as int, FX_HALF as int), norm as int, 2 * (
        FX_ONE as int));
        lemma_fx_div_unit(-fx_mul_spec(sin_omega as int, FX_HALF as int), norm as int, 2 * (
        FX_ONE as int));
        lemma_fx_div_unit(FX_ONE as int - cos_omega as int, norm as int, 2 * (FX_ONE as int));
        lemma_fx_div_unit(-(FX_ONE as int + cos_omega as int), norm as int, 2 * (FX_ONE as int));
        lemma_fx_div_unit(-2 * cos_omega as int, norm as int, 2 * (FX_ONE as int));
        lemma_fx_div_unit(FX_ONE as int, norm as int, 2 * (FX_ONE as int));
        lemma_fx_div_unit(FX_ONE as int - alpha as int, norm as int, 2 * (FX_ONE as int));
    }
    match f.kind {
        FilterKind::Lowpass => {
            f.a0 = fx_div(fx_mul(FX_ONE - cos_omega, FX_HALF), norm);
            f.a1 = fx_div(FX_ONE - cos_omega, norm);
            f.a2 = fx_div(fx_mul(FX_ONE - cos_omega, FX_HALF), norm);
            f.b1 = fx_div(-2 * cos_omega, norm);
            f.b2 = fx_div(FX_ONE - alpha, norm);
        },
        FilterKind::Highpass => {
            f.a0 = fx_div(fx_mul(FX_ONE + cos_omega, FX_HALF), norm);
            f.a1 = fx_div(-(FX_ONE + cos_omega), norm);
            f.a2 = fx_div(fx_mul(FX_ONE + cos_omega, FX_HALF), norm);
            f.b1 = fx_div(-2 * cos_omega, norm);
            f.b2 = fx_div(FX_ONE - alpha, norm);
        },
        FilterKind::Bandpass => {
            f.a0 = fx_div(fx_mul(sin_omega, FX_HALF), norm);
            f.a1 = 0;
            f.a2 = fx_div(-fx_mul(sin_omega, FX_HALF), norm);
            f.b1 = fx_div(-2 * cos_omega, norm);
            f.b2 = fx_div(FX_ONE - alpha, norm);
        },
        FilterKind::Notch => {
            f.a0 = fx_div(FX_ONE, norm);
            f.a1 = fx_div(-2 * cos_omega, norm);
            f.a2 = fx_div(FX_ONE, norm);
            f.b1 = fx_div(-2 * cos_omega, norm);
            f.b2 = fx_div(FX_ONE - alpha, norm);
        },
    }
}

/// Runs one sample through the biquad. A disabled filter is an exact
/// pass-through that leaves every field of its state alone, so it can be
/// re-enabled without a glitch.
pub fn apply_resonant_filter(f: &mut ResonantFilter, input: i64) -> (r: i64)
    requires
        filter_wf(*old(f)),
        -2 * (FX_ONE as int) <= input <= 2 * (FX_ONE as int),
    ensures
        filter_wf(*final(f)),
        !old(f).enabled ==> r == input && *final(f) == *old(f),
        old(f).enabled ==> {
            &&& r == clamp_spec(
                biquad_out(*old(f), input as int),
                -2 * (FX_ONE as int),
                2 * (FX_ONE as int),
            )
            &&& final(f).x1 == input
            &&& final(f).x2 == old(f).x1
            &&& final(f).y1 == r
            &&& final(f).y2 == old(f).y1
            &&& final(f).enabled == old(f).enabled
            &&& final(f).kind == old(f).kind
            &&& final(f).cutoff == old(f).cutoff
            &&& final(f).resonance == old(f).resonance
            &&& final(f).a0 == old(f).a0
            &&& final(f).a1 == old(f).a1
            &&& final(f).a2 == old(f).a2
            &&& final(f).b1 == old(f).b1
            &&& final(f).b2 == old(f).b2
        },
        -2 * (FX_ONE as int) <= r <= 2 * (FX_ONE as int),
{
    proof {
        reveal(filter_wf);
    }
    if !f.enabled {
        return input;
    }
    proof {
        lemma_fx_mul_le(f.a0 as int, input as int, 8589934592, 8589934592, 17179869184);
        lemma_fx_mul_le(f.a1 as int, f.x1 as int, 8589934592, 8589934592, 17179869184);
        lemma_fx_mul_le(f.a2 as int, f.x2 as int, 8589934592, 8589934592, 17179869184);
        lemma_fx_mul_le(f.b1 as int, f.y1 as int, 8589934592, 8589934592, 17179869184);
        lemma_fx_mul_le(f.b2 as int, f.y2 as int, 8589934592, 8589934592, 17179869184);
    }
    let output: i64 = fx_mul(f.a0, input) + fx_mul(f.a1, f.x1) + fx_mul(f.a2, f.x2) - fx_mul(
        f.b1,
        f.y1,
    ) - fx_mul(f.b2, f.y2);
    let clamped: i64 = fx_clamp(output, -2 * FX_ONE, 2 * FX_ONE);
    f.x2 = f.x1;
    f.x1 = input;
    f.y2 = f.y1;
    f.y1 = clamped;
    clamped
}

} // verus!
