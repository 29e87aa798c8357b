//! Tests of the whole chip: polyphony bookkeeping, sequencer timing,
//! sound-effect completion, sample playback, register writes, and the
//! deliberately unclamped mixer.

use zebratron_apu::apu::Apu;
use zebratron_apu::fx::{FX_ONE, FX_HALF};
use zebratron_apu::pitch::midi_to_frequency;

#[test]
fn silent_after_power_on() {
    let mut apu = Apu::new();
    for _ in 0..8 {
        assert_eq!(apu.generate_sample(), 0);
    }
}

#[test]
fn polyphony_bookkeeping() {
    let mut apu = Apu::new();
    apu.synth_note_on(60);
    apu.synth_note_on(64);
    assert_eq!(apu.get_synth_active_note_count(), 2);
    apu.synth_note_on(60);
    assert_eq!(apu.get_synth_active_note_count(), 2);
    apu.synth_note_off(60);
    assert_eq!(apu.get_synth_active_note_count(), 1);
    apu.set_synth_enabled(false);
    assert_eq!(apu.get_synth_active_note_count(), 0);
}

#[test]
fn note_off_for_unknown_note_is_a_no_op() {
    let mut apu = Apu::new();
    apu.synth_note_on(60);
    apu.synth_note_off(99);
    assert_eq!(apu.get_synth_active_note_count(), 1);
}

#[test]
fn melody_stepping() {
    // At three steps per second, one third of a second of simulated
    // time advances the melody by exactly one step. The step duration
    // in ticks: ceil((2^32 / 3) / 2403) = 595779 calls.
    let mut apu = Apu::new();
    apu.set_melody_tempo(3 * FX_ONE);
    apu.set_melody_enabled(true);
    assert_eq!(apu.melody_step, 0);
    assert_eq!(apu.current_note, 62);
    assert_eq!(apu.test_osc.frequency, midi_to_frequency(62));
    for _ in 0..595778 {
        apu.step();
    }
    assert_eq!(apu.melody_step, 0);
    apu.step();
    assert_eq!(apu.melody_step, 1);
    assert_eq!(apu.current_note, 65);
    // Step 4 of the melody is a rest (note 0): the test oscillator is
    // silenced there.
    while apu.melody_step != 4 {
        apu.step();
    }
    assert!(!apu.test_osc.enabled);
    assert_eq!(apu.current_note, 62);
}

#[test]
fn sound_effect_completion() {
    // A sweep from note 60 to note 72 over a tenth of a second: past
    // the duration the effect deactivates, and the sweep lands exactly
    // on the end note's frequency at its final active tick.
    let mut apu = Apu::new();
    apu.play_sound_effect(60, 72, 0, 429496729);
    assert!(apu.sfx_active);
    assert_eq!(apu.test_osc.frequency, midi_to_frequency(60));
    let mut calls: u64 = 0;
    while apu.sfx_active {
        apu.step();
        calls += 1;
        assert!(calls < 200000);
    }
    assert_eq!(calls, 178734);
    assert!(!apu.test_osc.enabled);
    assert_eq!(apu.test_osc.frequency, midi_to_frequency(72));
    let end_hz = apu.test_osc.frequency as f64 / FX_ONE as f64;
    let want = 440.0f64 * 2.0f64.powf((72.0 - 69.0) / 12.0);
    assert!((end_hz - want).abs() < 1e-3);
}

#[test]
fn sound_effect_refuses_interruption() {
    let mut apu = Apu::new();
    apu.play_sound_effect(60, 72, 0, 429496729);
    apu.play_sound_effect(40, 50, 1, 999999);
    assert_eq!(apu.sfx_start_note, 60);
    assert_eq!(apu.sfx_end_note, 72);
}

#[test]
fn no_top_level_clamp() {
    // All three fixed voices at full pulse amplitude under maximum bank
    // and master volume sum past one: the mixer applies no final clamp.
    let mut apu = Apu::new();
    apu.set_sid_volume(FX_ONE);
    apu.set_master_volume(FX_ONE);
    apu.sid_voice1_play_note(69, 0);
    apu.sid_voice2_play_note(69, 0);
    apu.sid_voice3_play_note(69, 0);
    let out = apu.generate_sample();
    assert_eq!(out, 9019431321);
    assert!(out > FX_ONE);
}

#[test]
fn sound_test_mode_silences_legacy_bank() {
    let mut apu = Apu::new();
    apu.write_pulse1_register(0, 0b1100_1111);
    apu.write_pulse1_register(3, 2);
    assert!(apu.pulse1.enabled);
    apu.enter_sound_test_mode();
    let phase_before = apu.pulse1.phase;
    apu.generate_sample();
    assert_eq!(apu.pulse1.phase, phase_before);
}

#[test]
fn register_write_duty_and_volume() {
    let mut apu = Apu::new();
    apu.write_pulse1_register(0, 0b1100_1111);
    assert_eq!(apu.pulse1.pulse_width, 3);
    assert_eq!(apu.pulse1.volume, 15);
}

#[test]
fn register_write_frequency_low() {
    // The fresh channel sits at 440 Hz, so the register file reads the
    // period back as 0x100 | 0x55 = 341 and the formula gives
    // 1789773 / (16 * 342) Hz.
    let mut apu = Apu::new();
    apu.write_pulse1_register(2, 0x55);
    assert_eq!(apu.pulse1.frequency, 1404791027460);
}

#[test]
fn register_write_frequency_high_enables() {
    let mut apu = Apu::new();
    apu.write_pulse1_register(3, 2);
    assert_eq!(apu.pulse1.frequency, 689294880045);
    assert!(apu.pulse1.enabled);
    assert_eq!(apu.pulse1.phase, 0);
}

#[test]
fn sample_playback_sequence() {
    // A three-byte clip at the engine's own rate advances 0.75 samples
    // per call, recentring each byte from [0, 255] to [-1, 1].
    let mut apu = Apu::new();
    apu.set_sample_volume(FX_ONE);
    apu.play_sample(vec![255, 0, 128], 44100);
    assert_eq!(apu.update_sample_playback(), 127 * 33554432);
    assert_eq!(apu.update_sample_playback(), 127 * 33554432);
    assert_eq!(apu.update_sample_playback(), -FX_ONE);
    assert_eq!(apu.update_sample_playback(), 0);
    assert_eq!(apu.update_sample_playback(), 0);
    assert!(!apu.sample_active);
    apu.play_sample(vec![255], 44100);
    apu.stop_sample();
    assert!(!apu.sample_active);
    assert_eq!(apu.update_sample_playback(), 0);
}

#[test]
fn voice_effect_gasp_runs_and_completes() {
    let mut apu = Apu::new();
    apu.play_voice_effect(1);
    assert!(apu.voice_active);
    assert!(apu.voice_oscillator.enabled);
    assert_eq!(apu.voice_oscillator.frequency, 150 * FX_ONE);
    let mut calls: u64 = 0;
    while apu.voice_active {
        apu.step();
        calls += 1;
        assert!(calls < 400000);
    }
    assert_eq!(calls, 357468);
    assert!(!apu.voice_oscillator.enabled);
}

#[test]
fn voice_effect_refuses_interruption() {
    let mut apu = Apu::new();
    apu.play_voice_effect(1);
    apu.play_voice_effect(2);
    assert_eq!(apu.voice_type, 1);
}

#[test]
fn voice_effect_unknown_kind_starts_nothing() {
    let mut apu = Apu::new();
    apu.play_voice_effect(7);
    assert!(!apu.voice_active);
    assert!(!apu.voice_oscillator.enabled);
}

#[test]
fn laughter_reaches_its_gaps() {
    // The laugh's first tone lasts one second; after it the oscillator
    // falls silent for the first gap.
    let mut apu = Apu::new();
    apu.play_voice_effect(0);
    assert!(apu.voice_oscillator.enabled);
    assert_eq!(apu.voice_oscillator.frequency, 300 * FX_ONE);
    while apu.voice_stage == 0 {
        apu.step();
    }
    assert_eq!(apu.voice_stage, 1);
    assert!(!apu.voice_oscillator.enabled);
    while apu.voice_stage == 1 {
        apu.step();
    }
    assert_eq!(apu.voice_stage, 2);
    assert!(apu.voice_oscillator.enabled);
    assert_eq!(apu.voice_oscillator.frequency, 400 * FX_ONE);
}

#[test]
fn parameter_setters_clamp() {
    let mut apu = Apu::new();
    apu.set_melody_tempo(100 * FX_ONE);
    assert_eq!(apu.get_melody_tempo(), 4 * FX_ONE);
    apu.set_melody_tempo(-5);
    assert_eq!(apu.get_melody_tempo(), FX_HALF);
    apu.sound_test_change_note(5);
    assert_eq!(apu.get_current_note(), 21);
    apu.sound_test_change_note(200);
    assert_eq!(apu.get_current_note(), 108);
    apu.sound_test_change_waveform(9);
    assert_eq!(apu.get_current_waveform(), 4);
    apu.set_delay_feedback(2 * FX_ONE);
    assert_eq!(apu.get_delay_feedback(), 4080218931);
    apu.set_delay_mix(-1);
    assert_eq!(apu.get_delay_mix(), 0);
    apu.set_master_volume(3 * FX_ONE);
    assert_eq!(apu.master_volume, FX_ONE);
}

#[test]
fn sound_test_controls_drive_oscillator() {
    let mut apu = Apu::new();
    apu.enter_sound_test_mode();
    assert!(apu.is_sound_test_mode());
    assert!(apu.test_osc.enabled);
    assert_eq!(apu.test_osc.frequency, midi_to_frequency(69));
    apu.sound_test_change_note(60);
    assert_eq!(apu.test_osc.frequency, midi_to_frequency(60));
    apu.exit_sound_test_mode();
    assert!(!apu.is_sound_test_mode());
    assert!(!apu.test_osc.enabled);
}

#[test]
fn filter_getters_report_test_oscillator() {
    let apu = Apu::new();
    assert_eq!(apu.get_filter_type(), 0);
    assert_eq!(apu.get_filter_cutoff(), 3435973836);
    assert_eq!(apu.get_filter_resonance(), 429496729);
    assert!(!apu.get_delay_enabled());
}

#[test]
fn poly_chord_replaces_notes() {
    let mut apu = Apu::new();
    apu.synth_note_on(30);
    apu.poly_play_chord(vec![60, 64, 67]);
    assert_eq!(apu.get_synth_active_note_count(), 3);
    apu.poly_stop_note(64);
    assert_eq!(apu.get_synth_active_note_count(), 2);
    apu.poly_stop_all();
    assert_eq!(apu.get_synth_active_note_count(), 0);
}

#[test]
fn global_filter_broadcasts_to_live_voices() {
    let mut apu = Apu::new();
    apu.synth_note_on(60);
    apu.synth_note_on(64);
    apu.set_filter_enabled(true);
    // 1000 Hz normalizes to 1000 / 22050 of the band; 50 kHz caps at 1.
    apu.set_filter_cutoff(1000 * FX_ONE);
    apu.set_filter_resonance(FX_HALF);
    for v in apu.synth_voices.iter() {
        assert!(v.osc.filter.enabled);
        assert_eq!(v.osc.filter.cutoff, 194783097);
        assert_eq!(v.osc.filter.resonance, FX_HALF);
    }
    apu.set_filter_cutoff(50000 * FX_ONE);
    apu.synth_note_on(72);
    for v in apu.synth_voices.iter() {
        assert_eq!(v.osc.filter.cutoff, FX_ONE);
    }
}

#[test]
fn sid_filter_broadcast_is_bank_wide() {
    let mut apu = Apu::new();
    apu.sid_set_filter_voices(true, false, true);
    assert!(apu.sid_voice1.filter.enabled);
    assert!(!apu.sid_voice2.filter.enabled);
    assert!(apu.sid_voice3.filter.enabled);
    apu.sid_set_filter_resonance(20 * FX_ONE);
    assert_eq!(apu.sid_voice1.filter.resonance, 10 * FX_ONE);
    assert_eq!(apu.sid_voice2.filter.resonance, 10 * FX_ONE);
    apu.sid_set_filter_type(9);
    assert_eq!(apu.sid_voice1.filter.kind, apu.sid_voice3.filter.kind);
}

#[test]
fn sid_stop_tracks_bank_enable() {
    let mut apu = Apu::new();
    apu.sid_voice1_play_note(60, 0);
    apu.sid_voice2_play_note(64, 1);
    assert!(apu.sid_enabled);
    apu.sid_voice1_stop();
    assert!(apu.sid_enabled);
    apu.sid_voice2_stop();
    assert!(!apu.sid_enabled);
    apu.sid_voice3_play_note(67, 2);
    assert!(apu.sid_enabled);
    apu.sid_stop_all();
    assert!(!apu.sid_enabled);
}
