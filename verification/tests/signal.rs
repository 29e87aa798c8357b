//! Tests of the signal path: waveforms, pitch conversion, the resonant
//! filter, the delay line and the noise register.

use zebratron_apu::fx::{FX_ONE, FX_HALF, FX_QUARTER};
use zebratron_apu::pitch::midi_to_frequency;
use zebratron_apu::oscillator::{lfsr_step, osc_new, generate_digital_oscillator_sample, Waveform};
use zebratron_apu::filter::{
    filter_new, update_filter_coefficients, apply_resonant_filter, FilterKind, ResonantFilter,
};
use zebratron_apu::delay::{delay_new, apply_digital_delay};

/// An oscillator whose filter and delay are bypassed, at a frequency
/// equal to the sample rate, so its phase comes back to the same value
/// after every sample.
fn bare_osc_at(phase: i64, waveform: Waveform, pulse_width: i64) -> zebratron_apu::oscillator::DigitalOscillator {
    let filter = filter_new(false, FilterKind::Lowpass, 0, 0);
    let delay = delay_new(false, 0, 0, 0);
    let mut osc = osc_new(
        true,
        44100 * FX_ONE,
        waveform,
        pulse_width,
        FX_ONE,
        0,
        filter,
        delay,
    );
    osc.phase = phase;
    osc
}

#[test]
fn pulse_waveform_exactness() {
    // With pulse width one half, a sample taken at phase one quarter is
    // +1 and at phase three quarters is -1.
    let mut osc = bare_osc_at(FX_QUARTER, Waveform::Pulse, FX_HALF);
    let high = generate_digital_oscillator_sample(&mut osc);
    assert_eq!(high, FX_ONE);
    assert_eq!(osc.phase, FX_QUARTER);

    let mut osc = bare_osc_at(3 * FX_QUARTER, Waveform::Pulse, FX_HALF);
    let low = generate_digital_oscillator_sample(&mut osc);
    assert_eq!(low, -FX_ONE);
}

#[test]
fn sawtooth_and_triangle_midpoints() {
    let mut saw = bare_osc_at(FX_HALF, Waveform::Sawtooth, FX_HALF);
    assert_eq!(generate_digital_oscillator_sample(&mut saw), 0);
    let mut tri = bare_osc_at(FX_QUARTER, Waveform::Triangle, FX_HALF);
    assert_eq!(generate_digital_oscillator_sample(&mut tri), 0);
    let mut sine = bare_osc_at(FX_QUARTER, Waveform::Sine, FX_HALF);
    assert_eq!(generate_digital_oscillator_sample(&mut sine), FX_ONE);
}

#[test]
fn unknown_waveform_is_silent() {
    let mut osc = bare_osc_at(FX_QUARTER, Waveform::Unknown, FX_HALF);
    assert_eq!(generate_digital_oscillator_sample(&mut osc), 0);
}

#[test]
fn phase_containment() {
    // Whatever the frequency and detune, the phase stays in [0, 1).
    let filter = filter_new(false, FilterKind::Lowpass, 0, 0);
    let delay = delay_new(false, 0, 0, 0);
    let mut osc = osc_new(
        true,
        100000 * FX_ONE,
        Waveform::Sawtooth,
        FX_HALF,
        FX_ONE,
        FX_HALF,
        filter,
        delay,
    );
    for _ in 0..1000 {
        generate_digital_oscillator_sample(&mut osc);
        assert!(0 <= osc.phase && osc.phase < FX_ONE);
    }
}

#[test]
fn midi_conversion_round_trip() {
    // A4 is exactly 440 Hz and one octave up is exactly 880 Hz.
    assert_eq!(midi_to_frequency(69), 440 * FX_ONE);
    assert_eq!(midi_to_frequency(81), 880 * FX_ONE);
    let a4 = midi_to_frequency(69) as f64 / FX_ONE as f64;
    let a5 = midi_to_frequency(81) as f64 / FX_ONE as f64;
    assert!((a4 - 440.0).abs() < 1e-3);
    assert!((a5 - 880.0).abs() < 1e-3);
}

#[test]
fn midi_conversion_examples() {
    assert_eq!(midi_to_frequency(62), 1261280574180);
    assert_eq!(midi_to_frequency(71), 2121212626720);
    assert_eq!(midi_to_frequency(21), 118111600640);
    // Equal temperament within a hundredth of a hertz against the
    // real-valued formula.
    for note in 0u8..128 {
        let got = midi_to_frequency(note) as f64 / FX_ONE as f64;
        let want = 440.0f64 * 2.0f64.powf((note as f64 - 69.0) / 12.0);
        assert!((got - want).abs() < 1e-2, "note {}", note);
    }
}

#[test]
fn filter_bypass_is_exact() {
    // A disabled filter passes any sample through unchanged and leaves
    // every piece of its state alone, whatever the history holds.
    let mut f = ResonantFilter {
        enabled: false,
        kind: FilterKind::Bandpass,
        cutoff: FX_HALF,
        resonance: 3 * FX_ONE,
        x1: -FX_ONE,
        x2: 2 * FX_ONE,
        y1: -2 * FX_ONE,
        y2: 12345678,
        a0: FX_ONE,
        a1: -FX_HALF,
        a2: 77,
        b1: -3,
        b2: FX_QUARTER,
    };
    let inputs = [0i64, FX_ONE, -FX_ONE, 2 * FX_ONE, -2 * FX_ONE, 424242];
    for &x in inputs.iter() {
        let y = apply_resonant_filter(&mut f, x);
        assert_eq!(y, x);
    }
    assert_eq!(f.x1, -FX_ONE);
    assert_eq!(f.y1, -2 * FX_ONE);
    assert_eq!(f.a1, -FX_HALF);
}

#[test]
fn filter_identity_coefficients_pass_input() {
    // A fresh filter holds the identity coefficients (a0 = 1, rest 0),
    // so enabling it without deriving coefficients echoes the input.
    let mut f = filter_new(true, FilterKind::Lowpass, FX_HALF, 0);
    let y = apply_resonant_filter(&mut f, 12345 * 65536);
    assert_eq!(y, 12345 * 65536);
    assert_eq!(f.y1, 12345 * 65536);
    assert_eq!(f.x1, 12345 * 65536);
}

#[test]
fn filter_coefficients_at_closed_cutoff() {
    // Exact coefficient values for cutoff 0 (30 Hz) and no resonance.
    let mut lp = filter_new(true, FilterKind::Lowpass, 0, 0);
    update_filter_coefficients(&mut lp);
    assert_eq!(
        (lp.a0, lp.a1, lp.a2, lp.b1, lp.b2),
        (15818, 31636, 15818, -8543439346, 4248535323)
    );
    let mut notch = filter_new(true, FilterKind::Notch, 0, 0);
    update_filter_coefficients(&mut notch);
    assert_eq!(
        (notch.a0, notch.a1, notch.a2, notch.b1, notch.b2),
        (4271751309, -8543439346, 4271751309, -8543439346, 4248535323)
    );
}

#[test]
fn delay_bypass_is_exact() {
    let mut d = delay_new(false, FX_HALF, FX_QUARTER, FX_HALF);
    let inputs = [0i64, FX_ONE, -FX_ONE, 2 * FX_ONE, -2 * FX_ONE, 5551212];
    for &x in inputs.iter() {
        let y = apply_digital_delay(&mut d, x);
        assert_eq!(y, x);
    }
    assert_eq!(d.write_pos, 0);
    assert_eq!(d.feedback_filter, 0);
}

#[test]
fn delay_line_echoes_one_sample() {
    // Delay time 0 clamps to a one-sample delay; with a fully wet mix
    // and no feedback the output is the previous input, exactly.
    let mut d = delay_new(true, 0, 0, FX_ONE);
    let first = apply_digital_delay(&mut d, 1000 * FX_ONE / 1000);
    assert_eq!(first, 0);
    let second = apply_digital_delay(&mut d, 0);
    assert_eq!(second, FX_ONE);
}

#[test]
fn lfsr_steps_and_never_dies() {
    assert_eq!(lfsr_step(1), 0x4000);
    let mut l: u16 = 0x7fff;
    for _ in 0..100000 {
        l = lfsr_step(l);
        assert_ne!(l, 0);
    }
}

#[test]
fn noise_is_full_scale() {
    let filter = filter_new(false, FilterKind::Lowpass, 0, 0);
    let delay = delay_new(false, 0, 0, 0);
    let mut osc = osc_new(true, 440 * FX_ONE, Waveform::Noise, FX_HALF, FX_ONE, 0, filter, delay);
    for _ in 0..64 {
        let s = generate_digital_oscillator_sample(&mut osc);
        assert!(s == FX_ONE || s == -FX_ONE);
    }
}
