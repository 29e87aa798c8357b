//! A single synthesizable voice: a phase-accumulating waveform generator
//! feeding an owned resonant filter, then an owned feedback delay, then a
//! volume scale — always in that fixed order.
//!
//! One call to `generate_digital_oscillator_sample` advances the phase by
//! `frequency * (1 + detune) / sample_rate` (wrapping it back into
//! [0, 1)), evaluates the selected waveform at the new phase, rederives
//! the filter coefficients, and runs the raw sample through filter, delay
//! and volume.

use vstd::prelude::*;

verus! {

use crate::fx::{
    FX_ONE,
    FX_HALF,
    fx_mul,
    fx_mul_spec,
    lemma_fx_mul_le,
    lemma_fx_mul_nonneg,
};
use crate::pitch::FREQ_LIMIT;
use crate::trig::{sine_fx, sine_spec, lemma_sine_bounds};
use crate::filter::{
    ResonantFilter,
    filter_wf,
    filter_step_out,
    coef_a0,
    coef_a1,
    coef_a2,
    coef_b1,
    coef_b2,
    update_filter_coefficients,
    apply_resonant_filter,
};
use crate::delay::{
    DigitalDelay,
    delay_wf,
    delay_read_index,
    delay_ff_next,
    delay_written,
    delay_out_spec,
    apply_digital_delay,
    DELAY_BUFFER_SIZE,
};
use crate::SAMPLE_RATE;

/// The waveforms a voice can produce; an unknown selector code maps to
/// `Unknown`, which renders as silence rather than failing.
#[derive(Clone, Copy, PartialEq, Eq, Structural, Debug)]
pub enum Waveform {
    Pulse,
    Sawtooth,
    Triangle,
    Sine,
    Noise,
    Unknown,
}

/// The numeric waveform selector codes of the control surface.
pub open spec fn waveform_of_code(code: int) -> Waveform {
    if code == 0 {
        Waveform::Pulse
    } else if code == 1 {
        Waveform::Sawtooth
    } else if code == 2 {
        Waveform::Triangle
    } else if code == 3 {
        Waveform::Sine
    } else if code == 4 {
        Waveform::Noise
    } else {
        Waveform::Unknown
    }
}

/// Decodes a waveform selector byte.
pub fn waveform_from_code(code: u8) -> (w: Waveform)
    ensures
        w == waveform_of_code(code as int),
{
    if code == 0 {
        Waveform::Pulse
    } else if code == 1 {
        Waveform::Sawtooth
    } else if code == 2 {
        Waveform::Triangle
    } else if code == 3 {
        Waveform::Sine
    } else if code == 4 {
        Waveform::Noise
    } else {
        Waveform::Unknown
    }
}

/// One step of the 16-bit Galois-style noise register: feedback is the
/// XOR of the two lowest bits; the register shifts right, and the
/// feedback bit re-enters at bit 14.
pub open spec fn lfsr_next_spec(l: u16) -> u16 {
    if ((l & 1) ^ ((l >> 1) & 1)) != 0 {
        (l >> 1) | 0x4000
    } else {
        l >> 1
    }
}

/// A nonzero register never reaches zero, so the noise never dies.
pub proof fn lemma_lfsr_nonzero(l: u16)
    requires
        l != 0,
    ensures
        lfsr_next_spec(l) != 0,
{
    assert(((l >> 1) | 0x4000) != 0u16) by (bit_vector);
    assert((l != 0 && ((l & 1) ^ ((l >> 1) & 1)) == 0) ==> (l >> 1) != 0u16) by (bit_vector);
}

/// One step of the noise register.
pub fn lfsr_step(l: u16) -> (r: u16)
    requires
        l != 0,
    ensures
        r == lfsr_next_spec(l),
        r != 0,
{
    proof {
        lemma_lfsr_nonzero(l);
    }
    let feedback: bool = ((l & 1) ^ ((l >> 1) & 1)) != 0;
    let shifted: u16 = l >> 1;
    if feedback {
        shifted | 0x4000
    } else {
        shifted
    }
}

/// A single voice.
pub struct DigitalOscillator {
    pub enabled: bool,
    /// Frequency in Q32.32 hertz, always positive.
    pub frequency: i64,
    pub waveform: Waveform,
    /// Phase in [0, 1): the invariant every step preserves.
    pub phase: i64,
    /// Pulse width in [0, 1], used by the pulse waveform only.
    pub pulse_width: i64,
    /// Voice volume in [0, 1].
    pub volume: i64,
    /// Fractional frequency offset in [-1/2, 1/2].
    pub detune: i64,
    /// The 16-bit noise shift register; never zero.
    pub lfsr: u16,
    pub filter: ResonantFilter,
    pub delay: DigitalDelay,
}

/// Well-formedness of a voice and of its owned effect stages.
#[verifier::opaque]
pub open spec fn osc_wf(o: DigitalOscillator) -> bool {
    &&& 0 < o.frequency < FREQ_LIMIT
    &&& 0 <= o.phase < FX_ONE
    &&& 0 <= o.pulse_width <= FX_ONE
    &&& 0 <= o.volume <= FX_ONE
    &&& -FX_HALF <= o.detune <= FX_HALF
    &&& o.lfsr != 0
    &&& filter_wf(o.filter)
    &&& delay_wf(o.delay)
}

/// The detuned frequency `frequency * (1 + detune)`.
pub open spec fn effective_freq(o: DigitalOscillator) -> int {
    fx_mul_spec(o.frequency as int, FX_ONE as int + o.detune as int)
}

/// How far one sample advances the phase.
pub open spec fn phase_inc(o: DigitalOscillator) -> int {
    effective_freq(o) / (SAMPLE_RATE as int)
}

/// The phase after one sample, wrapped back into [0, 1) however far the
/// detuned frequency runs past the sample rate.
pub open spec fn phase_next(o: DigitalOscillator) -> int {
    (o.phase + phase_inc(o)) % (FX_ONE as int)
}

/// The noise register after one sample: stepped only while the noise
/// waveform is selected, so differently seeded voices stay independent.
pub open spec fn osc_lfsr_next(o: DigitalOscillator) -> u16 {
    if o.waveform is Noise {
        lfsr_next_spec(o.lfsr)
    } else {
        o.lfsr
    }
}

/// The raw waveform value at a phase in [0, 1): pulse switches at the
/// pulse width, sawtooth is `2 p - 1`, triangle rises on the first half
/// turn and falls on the second, sine is the engine's parabolic sine,
/// noise follows the low bit of the stepped register, and an unknown
/// waveform is silent.
pub open spec fn waveform_sample_spec(w: Waveform, phase: int, pulse_width: int, lfsr: u16) -> int {
    match w {
        Waveform::Pulse => if phase < pulse_width {
            FX_ONE as int
        } else {
            -FX_ONE as int
        },
        Waveform::Sawtooth => 2 * phase - FX_ONE as int,
        Waveform::Triangle => if phase < FX_HALF {
            4 * phase - FX_ONE as int
        } else {
            3 * (FX_ONE as int) - 4 * phase
        },
        Waveform::Sine => sine_spec(phase),
        Waveform::Noise => if lfsr & 1 != 0 {
            FX_ONE as int
        } else {
            -FX_ONE as int
        },
        Waveform::Unknown => 0,
    }
}

/// The raw sample one step of this voice produces.
pub open spec fn osc_raw(o: DigitalOscillator) -> int {
    waveform_sample_spec(o.waveform, phase_next(o), o.pulse_width as int, osc_lfsr_next(o))
}

/// The raw sample after the filter stage.
pub open spec fn osc_filtered(o: DigitalOscillator) -> int {
    filter_step_out(o.filter, osc_raw(o))
}

/// The filtered sample after the delay stage.
pub open spec fn osc_delayed(o: DigitalOscillator) -> int {
    if !o.delay.enabled {
        osc_filtered(o)
    } else {
        delay_out_spec(o.delay, osc_filtered(o))
    }
}

/// The voice's output sample: generate, filter, delay, then volume.
#[verifier::opaque]
pub open spec fn osc_out(o: DigitalOscillator) -> int {
    fx_mul_spec(osc_delayed(o), o.volume as int)
}

/// How one sample step transforms a voice's whole state.
#[verifier::opaque]
pub open spec fn osc_stepped(o: DigitalOscillator, n: DigitalOscillator) -> bool {
    &&& n.enabled == o.enabled
    &&& n.frequency == o.frequency
    &&& n.waveform == o.waveform
    &&& n.pulse_width == o.pulse_width
    &&& n.volume == o.volume
    &&& n.detune == o.detune
    &&& n.phase == phase_next(o)
    &&& n.lfsr == osc_lfsr_next(o)
    &&& n.filter.enabled == o.filter.enabled
    &&& n.filter.kind == o.filter.kind
    &&& n.filter.cutoff == o.filter.cutoff
    &&& n.filter.resonance == o.filter.resonance
    &&& n.filter.a0 == coef_a0(o.filter.kind, o.filter.cutoff as int, o.filter.resonance as int)
    &&& n.filter.a1 == coef_a1(o.filter.kind, o.filter.cutoff as int, o.filter.resonance as int)
    &&& n.filter.a2 == coef_a2(o.filter.kind, o.filter.cutoff as int, o.filter.resonance as int)
    &&& n.filter.b1 == coef_b1(o.filter.cutoff as int, o.filter.resonance as int)
    &&& n.filter.b2 == coef_b2(o.filter.cutoff as int, o.filter.resonance as int)
    &&& if o.filter.enabled {
        &&& n.filter.x1 == osc_raw(o)
        &&& n.filter.x2 == o.filter.x1
        &&& n.filter.y1 == osc_filtered(o)
        &&& n.filter.y2 == o.filter.y1
    } else {
        &&& n.filter.x1 == o.filter.x1
        &&& n.filter.x2 == o.filter.x2
        &&& n.filter.y1 == o.filter.y1
        &&& n.filter.y2 == o.filter.y2
    }
    &&& n.delay.enabled == o.delay.enabled
    &&& n.delay.delay_time == o.delay.delay_time
    &&& n.delay.feedback == o.delay.feedback
    &&& n.delay.mix == o.delay.mix
    &&& if o.delay.enabled {
        &&& n.delay.read_pos == delay_read_index(o.delay)
        &&& n.delay.feedback_filter == delay_ff_next(o.delay)
        &&& n.delay.buffer@ == o.delay.buffer@.update(
            o.delay.write_pos as int,
            delay_written(o.delay, osc_filtered(o)) as i64,
        )
        &&& n.delay.write_pos == (o.delay.write_pos + 1) % (DELAY_BUFFER_SIZE as int)
    } else {
        &&& n.delay.read_pos == o.delay.read_pos
        &&& n.delay.feedback_filter == o.delay.feedback_filter
        &&& n.delay.buffer == o.delay.buffer
        &&& n.delay.write_pos == o.delay.write_pos
    }
}

/// Phase containment: after one sample step the phase lies again in
/// [0, 1), for every frequency and detune.
pub proof fn lemma_phase_containment(o: DigitalOscillator)
    ensures
        0 <= phase_next(o) < FX_ONE,
{
}

/// Pulse exactness: the pulse waveform reads +1 exactly while the phase
/// is below the pulse width, and -1 from there on.
pub proof fn lemma_pulse_exactness(phase: int, pulse_width: int, lfsr: u16)
    ensures
        waveform_sample_spec(Waveform::Pulse, phase, pulse_width, lfsr) == if phase < pulse_width {
            FX_ONE as int
        } else {
            -FX_ONE as int
        },
{
}

/// A fresh voice at phase zero with the classic all-ones noise seed.
pub fn osc_new(
    enabled: bool,
    frequency: i64,
    waveform: Waveform,
    pulse_width: i64,
    volume: i64,
    detune: i64,
    filter: ResonantFilter,
    delay: DigitalDelay,
) -> (o: DigitalOscillator)
    requires
        0 < frequency < FREQ_LIMIT,
        0 <= pulse_width <= FX_ONE,
        0 <= volume <= FX_ONE,
        -FX_HALF <= detune <= FX_HALF,
        filter_wf(filter),
        delay_wf(delay),
    ensures
        osc_wf(o),
        o.enabled == enabled,
        o.frequency == frequency,
        o.waveform == waveform,
        o.phase == 0,
        o.pulse_width == pulse_width,
        o.volume == volume,
        o.detune == detune,
        o.lfsr == 0x7fff,
        o.filter == filter,
        o.delay == delay,
{
    proof {
        reveal(osc_wf);
    }
    DigitalOscillator {
        enabled,
        frequency,
        waveform,
        phase: 0,
        pulse_width,
        volume,
        detune,
        lfsr: 0x7fff,
        filter,
        delay,
    }
}

/// Produces one sample of this voice and advances its whole state:
/// generate at the new phase, filter with fresh coefficients, delay, then
/// scale by the voice volume. After the call the phase is again in
/// [0, 1), whatever the frequency and detune.
pub fn generate_digital_oscillator_sample(osc: &mut DigitalOscillator) -> (r: i64)
    requires
        osc_wf(*old(osc)),
    ensures
        osc_wf(*final(osc)),
        osc_stepped(*old(osc), *final(osc)),
        r == osc_out(*old(osc)),
        0 <= final(osc).phase < FX_ONE,
        -2 * (FX_ONE as int) <= r <= 2 * (FX_ONE as int),
{
    proof {
        reveal(osc_wf);
        reveal(osc_out);
        reveal(osc_stepped);
        lemma_fx_mul_le(
            osc.frequency as int,
            FX_ONE as int + osc.detune as int,
            144115188075855872,
            6442450944,
            216172782113783808,
        );
        lemma_fx_mul_nonneg(osc.frequency as int, FX_ONE as int + osc.detune as int);
    }
    let effective: i64 = fx_mul(osc.frequency, FX_ONE + osc.detune);
    let inc: i64 = effective / SAMPLE_RATE;
    proof {
        vstd::arithmetic::div_mod::lemma_div_pos_is_pos(effective as int, SAMPLE_RATE as int);
    }
    osc.phase = (osc.phase + inc) % FX_ONE;
    let raw: i64 = match osc.waveform {
        Waveform::Pulse => if osc.phase < osc.pulse_width {
            FX_ONE
        } else {
            -FX_ONE
        },
        Waveform::Sawtooth => 2 * osc.phase - FX_ONE,
        Waveform::Triangle => if osc.phase < FX_HALF {
            4 * osc.phase - FX_ONE
        } else {
            3 * FX_ONE - 4 * osc.phase
        },
        Waveform::Sine => sine_fx(osc.phase),
        Waveform::Noise => {
            osc.lfsr = lfsr_step(osc.lfsr);
            if osc.lfsr & 1 != 0 {
                FX_ONE
            } else {
                -FX_ONE
            }
        },
        Waveform::Unknown => 0,
    };
    update_filter_coefficients(&mut osc.filter);
    let filtered: i64 = apply_resonant_filter(&mut osc.filter, raw);
    let delayed: i64 = apply_digital_delay(&mut osc.delay, filtered);
    proof {
        lemma_fx_mul_le(delayed as int, osc.volume as int, 8589934592, 4294967296, 8589934592);
    }
    fx_mul(delayed, osc.volume)
}

} // verus!
