//! The legacy 4-channel chip-tune bank: two register-driven pulse
//! channels, one fixed-shape triangle channel and one LFSR noise channel,
//! always resident and audible only outside sound-test mode.

use vstd::prelude::*;

verus! {

use crate::fx::{FX_ONE, FX_HALF, fx_mul, fx_mul_spec, lemma_fx_mul_le};
use crate::pitch::FREQ_LIMIT;
use crate::oscillator::{lfsr_next_spec, lfsr_step};
use crate::SAMPLE_RATE;

/// A register-driven pulse channel: duty selector, 4-bit volume, and a
/// phase accumulator.
pub struct PulseChannel {
    pub enabled: bool,
    /// Frequency in Q32.32 hertz, always positive.
    pub frequency: i64,
    /// Duty selector in 0..4, indexing the duty table.
    pub pulse_width: u8,
    /// 4-bit volume in 0..16.
    pub volume: u8,
    /// Phase in [0, 1).
    pub phase: i64,
}

/// The fixed-shape triangle channel.
pub struct TriangleChannel {
    pub enabled: bool,
    pub frequency: i64,
    pub phase: i64,
}

/// The 4-bit noise channel, sharing the oscillator's LFSR algorithm over
/// its own independently seeded register.
pub struct NoiseChannel {
    pub enabled: bool,
    /// 4-bit volume in 0..16.
    pub volume: u8,
    pub period: u16,
    /// Never zero.
    pub shift_register: u16,
}

pub open spec fn pulse_wf(c: PulseChannel) -> bool {
    &&& 0 < c.frequency < FREQ_LIMIT
    &&& c.pulse_width < 4
    &&& c.volume < 16
    &&& 0 <= c.phase < FX_ONE
}

pub open spec fn tri_wf(c: TriangleChannel) -> bool {
    &&& 0 < c.frequency < FREQ_LIMIT
    &&& 0 <= c.phase < FX_ONE
}

pub open spec fn noise_wf(c: NoiseChannel) -> bool {
    &&& c.volume < 16
    &&& c.shift_register != 0
}

/// The four duty-cycle thresholds 1/8, 1/4, 1/2 and 3/4.
pub open spec fn duty_threshold(i: int) -> int {
    if i == 0 {
        536870912
    } else if i == 1 {
        1073741824
    } else if i == 2 {
        2147483648
    } else {
        3221225472
    }
}

/// A 4-bit volume as a Q32.32 gain `v / 15`.
pub open spec fn volume_scale(v: int) -> int {
    (v * (FX_ONE as int)) / 15
}

/// The phase after one sample of a legacy channel, wrapped into [0, 1).
pub open spec fn channel_phase_next(phase: int, frequency: int) -> int {
    (phase + frequency / (SAMPLE_RATE as int)) % (FX_ONE as int)
}

/// The pulse channel's output at its advanced phase.
pub open spec fn pulse_out(c: PulseChannel) -> int {
    if channel_phase_next(c.phase as int, c.frequency as int) < duty_threshold(
        c.pulse_width as int,
    ) {
        volume_scale(c.volume as int)
    } else {
        -volume_scale(c.volume as int)
    }
}

/// The triangle channel's output at its advanced phase, at half gain.
pub open spec fn tri_out(c: TriangleChannel) -> int {
    let p = channel_phase_next(c.phase as int, c.frequency as int);
    let wave = if p < FX_HALF {
        4 * p - FX_ONE as int
    } else {
        3 * (FX_ONE as int) - 4 * p
    };
    fx_mul_spec(wave, FX_HALF as int)
}

/// The noise channel's output from its stepped register, at half gain.
pub open spec fn noise_out(c: NoiseChannel) -> int {
    let scaled = fx_mul_spec(volume_scale(c.volume as int), FX_HALF as int);
    if lfsr_next_spec(c.shift_register) & 1 != 0 {
        scaled
    } else {
        -scaled
    }
}

/// How one sample step transforms a pulse channel.
pub open spec fn pulse_stepped(o: PulseChannel, n: PulseChannel) -> bool {
    &&& n.phase == channel_phase_next(o.phase as int, o.frequency as int)
    &&& n.enabled == o.enabled
    &&& n.frequency == o.frequency
    &&& n.pulse_width == o.pulse_width
    &&& n.volume == o.volume
}

/// How one sample step transforms the triangle channel.
pub open spec fn tri_stepped(o: TriangleChannel, n: TriangleChannel) -> bool {
    &&& n.phase == channel_phase_next(o.phase as int, o.frequency as int)
    &&& n.enabled == o.enabled
    &&& n.frequency == o.frequency
}

/// How one sample step transforms the noise channel.
pub open spec fn noise_stepped(o: NoiseChannel, n: NoiseChannel) -> bool {
    &&& n.shift_register == lfsr_next_spec(o.shift_register)
    &&& n.enabled == o.enabled
    &&& n.volume == o.volume
    &&& n.period == o.period
}

/// Looks up the duty threshold for a selector in 0..4.
fn duty_threshold_at(i: u8) -> (v: i64)
    requires
        i < 4,
    ensures
        v == duty_threshold(i as int),
        0 < v <= 3221225472,
{
    if i == 0 {
        536870912
    } else if i == 1 {
        1073741824
    } else if i == 2 {
        2147483648
    } else {
        3221225472
    }
}

/// Scales a 4-bit volume to a Q32.32 gain.
fn volume_scale_exec(v: u8) -> (r: i64)
    requires
        v < 16,
    ensures
        r == volume_scale(v as int),
        0 <= r <= FX_ONE,
{
    proof {
        vstd::arithmetic::div_mod::lemma_div_pos_is_pos(v as int * (FX_ONE as int), 15);
        vstd::arithmetic::div_mod::lemma_multiply_divide_le(
            v as int * (FX_ONE as int),
            15,
            FX_ONE as int,
        );
    }
    (v as i64 * FX_ONE) / 15
}

/// Advances a phase accumulator by one sample of the given frequency.
fn advance_phase(phase: i64, frequency: i64) -> (p: i64)
    requires
        0 <= phase < FX_ONE,
        0 < frequency < FREQ_LIMIT,
    ensures
        p == channel_phase_next(phase as int, frequency as int),
        0 <= p < FX_ONE,
{
    proof {
        vstd::arithmetic::div_mod::lemma_div_pos_is_pos(frequency as int, SAMPLE_RATE as int);
    }
    let inc: i64 = frequency / SAMPLE_RATE;
    (phase + inc) % FX_ONE
}

/// One sample of a pulse channel: advance the phase, compare it against
/// the selected duty threshold, and scale by the 4-bit volume.
pub fn generate_pulse_sample(channel: &mut PulseChannel) -> (r: i64)
    requires
        pulse_wf(*old(channel)),
    ensures
        pulse_wf(*final(channel)),
        final(channel).phase == channel_phase_next(
            old(channel).phase as int,
            old(channel).frequency as int,
        ),
        final(channel).enabled == old(channel).enabled,
        final(channel).frequency == old(channel).frequency,
        final(channel).pulse_width == old(channel).pulse_width,
        final(channel).volume == old(channel).volume,
        r == pulse_out(*old(channel)),
        -FX_ONE <= r <= FX_ONE,
{
    let duty: i64 = duty_threshold_at(channel.pulse_width);
    channel.phase = advance_phase(channel.phase, channel.frequency);
    let scale: i64 = volume_scale_exec(channel.volume);
    if channel.phase < duty {
        scale
    } else {
        -scale
    }
}

/// One sample of the triangle channel at half gain.
pub fn generate_triangle_sample(channel: &mut TriangleChannel) -> (r: i64)
    requires
        tri_wf(*old(channel)),
    ensures
        tri_wf(*final(channel)),
        final(channel).phase == channel_phase_next(
            old(channel).phase as int,
            old(channel).frequency as int,
        ),
        final(channel).enabled == old(channel).enabled,
        final(channel).frequency == old(channel).frequency,
        r == tri_out(*old(channel)),
        -FX_ONE <= r <= FX_ONE,
{
    channel.phase = advance_phase(channel.phase, channel.frequency);
    let wave: i64 = if channel.phase < FX_HALF {
        4 * channel.phase - FX_ONE
    } else {
        3 * FX_ONE - 4 * channel.phase
    };
    proof {
        lemma_fx_mul_le(wave as int, FX_HALF as int, 4294967296, 2147483648, 2147483648);
    }
    fx_mul(wave, FX_HALF)
}

/// One sample of the noise channel: step the shift register and emit its
/// low bit, scaled by the 4-bit volume at half gain.
pub fn generate_noise_sample(channel: &mut NoiseChannel) -> (r: i64)
    requires
        noise_wf(*old(channel)),
    ensures
        noise_wf(*final(channel)),
        final(channel).shift_register == lfsr_next_spec(old(channel).shift_register),
        final(channel).enabled == old(channel).enabled,
        final(channel).volume == old(channel).volume,
        final(channel).period == old(channel).period,
        r == noise_out(*old(channel)),
        -FX_ONE <= r <= FX_ONE,
{
    channel.shift_register = lfsr_step(channel.shift_register);
    let scale: i64 = volume_scale_exec(channel.volume);
    proof {
        vstd::arithmetic::div_mod::lemma_div_pos_is_pos(scale as int * (FX_HALF as int),
            FX_ONE as int);
        vstd::arithmetic::div_mod::lemma_multiply_divide_le(
            scale as int * (FX_HALF as int),
            FX_ONE as int,
            FX_HALF as int,
        );
    }
    let scaled: i64 = fx_mul(scale, FX_HALF);
    if channel.shift_register & 1 != 0 {
        scaled
    } else {
        -scaled
    }
}

} // verus!
