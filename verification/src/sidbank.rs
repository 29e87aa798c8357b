//! The fixed 3-voice bank: three named voices with independent note and
//! waveform control, a bank-wide enable flag recomputed after every stop,
//! and filter parameters broadcast to all three voices at once — the
//! enable mask alone stays per voice, as on a classic 3-voice chip.

use vstd::prelude::*;

verus! {

use crate::fx::{FX_ONE, fx_clamp, clamp_spec};
use crate::pitch::{midi_to_frequency, midi_freq_spec};
use crate::oscillator::{DigitalOscillator, Waveform, waveform_of_code, waveform_from_code, osc_wf};
use crate::filter::{
    ResonantFilter,
    FilterKind,
    filter_wf,
    filter_kind_of_code,
    filter_with_params,
    normalized_cutoff,
    normalized_cutoff_spec,
    coef_a0,
    update_filter_coefficients,
};
use crate::apu::{Apu, apu_wf};

/// Waveform selectors clamp to the five real waveforms on this bank.
pub open spec fn clamped_waveform(code: int) -> Waveform {
    if code > 4 {
        Waveform::Noise
    } else {
        waveform_of_code(code)
    }
}

/// A voice after a play call: at the note's frequency, with the clamped
/// waveform, enabled.
pub open spec fn sid_played(o: DigitalOscillator, note: u8, waveform: u8) -> DigitalOscillator {
    DigitalOscillator {
        enabled: true,
        frequency: midi_freq_spec(note as int) as i64,
        waveform: clamped_waveform(waveform as int),
        ..o
    }
}

impl Apu {
    /// Plays a note on voice 1 and marks the bank live.
    pub fn sid_voice1_play_note(&mut self, note: u8, waveform: u8)
        requires
            apu_wf(*old(self)),
        ensures
            apu_wf(*final(self)),
            *final(self) == (Apu {
                sid_voice1: sid_played(old(self).sid_voice1, note, waveform),
                sid_enabled: true,
                ..*old(self)
            }),
    {
        proof {
            reveal(osc_wf);
        }
        self.sid_voice1.frequency = midi_to_frequency(note);
        self.sid_voice1.waveform = waveform_from_code(if waveform > 4 {
            4
        } else {
            waveform
        });
        self.sid_voice1.enabled = true;
        self.sid_enabled = true;
    }

    /// Plays a note on voice 2 and marks the bank live.
    pub fn sid_voice2_play_note(&mut self, note: u8, waveform: u8)
        requires
            apu_wf(*old(self)),
        ensures
            apu_wf(*final(self)),
            *final(self) == (Apu {
                sid_voice2: sid_played(old(self).sid_voice2, note, waveform),
                sid_enabled: true,
                ..*old(self)
            }),
    {
        proof {
            reveal(osc_wf);
        }
        self.sid_voice2.frequency = midi_to_frequency(note);
        self.sid_voice2.waveform = waveform_from_code(if waveform > 4 {
            4
        } else {
            waveform
        });
        self.sid_voice2.enabled = true;
        self.sid_enabled = true;
    }

    /// Plays a note on voice 3 and marks the bank live.
    pub fn sid_voice3_play_note(&mut self, note: u8, waveform: u8)
        requires
            apu_wf(*old(self)),
        ensures
            apu_wf(*final(self)),
            *final(self) == (Apu {
                sid_voice3: sid_played(old(self).sid_voice3, note, waveform),
                sid_enabled: true,
                ..*old(self)
            }),
    {
        proof {
            reveal(osc_wf);
        }
        self.sid_voice3.frequency = midi_to_frequency(note);
        self.sid_voice3.waveform = waveform_from_code(if waveform > 4 {
            4
        } else {
            waveform
        });
        self.sid_voice3.enabled = true;
        self.sid_enabled = true;
    }

    /// Recomputes whether any voice is live.
    fn check_sid_enabled(&mut self)
        requires
            apu_wf(*old(self)),
        ensures
            apu_wf(*final(self)),
            *final(self) == (Apu {
                sid_enabled: old(self).sid_voice1.enabled || old(self).sid_voice2.enabled || old(
                    self,
                ).sid_voice3.enabled,
                ..*old(self)
            }),
    {
        self.sid_enabled = self.sid_voice1.enabled || self.sid_voice2.enabled
            || self.sid_voice3.enabled;
    }

    /// Stops voice 1; the bank stays live only while another voice is.
    pub fn sid_voice1_stop(&mut self)
        requires
            apu_wf(*old(self)),
        ensures
            apu_wf(*final(self)),
            *final(self) == (Apu {
                sid_voice1: (DigitalOscillator { enabled: false, ..old(self).sid_voice1 }),
                sid_enabled: old(self).sid_voice2.enabled || old(self).sid_voice3.enabled,
                ..*old(self)
            }),
    {
        proof {
            reveal(osc_wf);
        }
        self.sid_voice1.enabled = false;
        self.check_sid_enabled();
    }

    /// Stops voice 2; the bank stays live only while another voice is.
    pub fn sid_voice2_stop(&mut self)
        requires
            apu_wf(*old(self)),
        ensures
            apu_wf(*final(self)),
            *final(self) == (Apu {
                sid_voice2: (DigitalOscillator { enabled: false, ..old(self).sid_voice2 }),
                sid_enabled: old(self).sid_voice1.enabled || old(self).sid_voice3.enabled,
                ..*old(self)
            }),
    {
        proof {
            reveal(osc_wf);
        }
        self.sid_voice2.enabled = false;
        self.check_sid_enabled();
    }

    /// Stops voice 3; the bank stays live only while another voice is.
    pub fn sid_voice3_stop(&mut self)
        requires
            apu_wf(*old(self)),
        ensures
            apu_wf(*final(self)),
            *final(self) == (Apu {
                sid_voice3: (DigitalOscillator { enabled: false, ..old(self).sid_voice3 }),
                sid_enabled: old(self).sid_voice1.enabled || old(self).sid_voice2.enabled,
                ..*old(self)
            }),
    {
        proof {
            reveal(osc_wf);
        }
        self.sid_voice3.enabled = false;
        self.check_sid_enabled();
    }

    /// Stops all three voices and the bank.
    pub fn sid_stop_all(&mut self)
        requires
            apu_wf(*old(self)),
        ensures
            apu_wf(*final(self)),
            *final(self) == (Apu {
                sid_voice1: (DigitalOscillator { enabled: false, ..old(self).sid_voice1 }),
                sid_voice2: (DigitalOscillator { enabled: false, ..old(self).sid_voice2 }),
                sid_voice3: (DigitalOscillator { enabled: false, ..old(self).sid_voice3 }),
                sid_enabled: false,
                ..*old(self)
            }),
    {
        proof {
            reveal(osc_wf);
        }
        self.sid_voice1.enabled = false;
        self.sid_voice2.enabled = false;
        self.sid_voice3.enabled = false;
        self.sid_enabled = false;
    }

    /// Sets this bank's volume, clamped into [0, 1].
    pub fn set_sid_volume(&mut self, volume: i64)
        requires
            apu_wf(*old(self)),
        ensures
            apu_wf(*final(self)),
            *final(self) == (Apu {
                sid_volume: clamp_spec(volume as int, 0, FX_ONE as int) as i64,
                ..*old(self)
            }),
    {
        self.sid_volume = fx_clamp(volume, 0, FX_ONE);
    }

    /// Sets the polyphonic bank's volume, clamped into [0, 1].
    pub fn set_poly_volume(&mut self, volume: i64)
        requires
            apu_wf(*old(self)),
        ensures
            apu_wf(*final(self)),
            *final(self) == (Apu {
                poly_volume: clamp_spec(volume as int, 0, FX_ONE as int) as i64,
                ..*old(self)
            }),
    {
        self.poly_volume = fx_clamp(volume, 0, FX_ONE);
    }

    /// Routes each voice through or around the shared filter stage.
    #[verifier::rlimit(100)]
    pub fn sid_set_filter_voices(&mut self, voice1: bool, voice2: bool, voice3: bool)
        requires
            apu_wf(*old(self)),
        ensures
            apu_wf(*final(self)),
            *final(self) == (Apu {
                sid_voice1: (DigitalOscillator {
                    filter: (ResonantFilter { enabled: voice1, ..old(self).sid_voice1.filter }),
                    ..old(self).sid_voice1
                }),
                sid_voice2: (DigitalOscillator {
                    filter: (ResonantFilter { enabled: voice2, ..old(self).sid_voice2.filter }),
                    ..old(self).sid_voice2
                }),
                sid_voice3: (DigitalOscillator {
                    filter: (ResonantFilter { enabled: voice3, ..old(self).sid_voice3.filter }),
                    ..old(self).sid_voice3
                }),
                ..*old(self)
            }),
    {
        proof {
            reveal(osc_wf);
            reveal(filter_wf);
        }
        self.sid_voice1.filter.enabled = voice1;
        self.sid_voice2.filter.enabled = voice2;
        self.sid_voice3.filter.enabled = voice3;
    }

    /// Sets the shared cutoff in Q32.32 hertz across all three voices,
    /// normalized against half the sample rate, and rederives each
    /// voice's coefficients.
    pub fn sid_set_filter_cutoff(&mut self, cutoff: i64)
        requires
            apu_wf(*old(self)),
        ensures
            apu_wf(*final(self)),
            final(self).sid_voice1.filter.cutoff == normalized_cutoff_spec(
                if cutoff < 0 {
                    0
                } else {
                    cutoff as int
                },
            ),
            final(self).sid_voice2.filter.cutoff == final(self).sid_voice1.filter.cutoff,
            final(self).sid_voice3.filter.cutoff == final(self).sid_voice1.filter.cutoff,
            final(self).sid_voice1.filter.a0 == coef_a0(
                old(self).sid_voice1.filter.kind,
                final(self).sid_voice1.filter.cutoff as int,
                old(self).sid_voice1.filter.resonance as int,
            ),
            *final(self) == (Apu {
                sid_voice1: final(self).sid_voice1,
                sid_voice2: final(self).sid_voice2,
                sid_voice3: final(self).sid_voice3,
                ..*old(self)
            }),
            final(self).sid_voice1 == (DigitalOscillator {
                filter: filter_with_params(
                    old(self).sid_voice1.filter,
                    old(self).sid_voice1.filter.kind,
                    final(self).sid_voice1.filter.cutoff as int,
                    old(self).sid_voice1.filter.resonance as int,
                ),
                ..old(self).sid_voice1
            }),
            final(self).sid_voice2 == (DigitalOscillator {
                filter: filter_with_params(
                    old(self).sid_voice2.filter,
                    old(self).sid_voice2.filter.kind,
                    final(self).sid_voice2.filter.cutoff as int,
                    old(self).sid_voice2.filter.resonance as int,
                ),
                ..old(self).sid_voice2
            }),
            final(self).sid_voice3 == (DigitalOscillator {
                filter: filter_with_params(
                    old(self).sid_voice3.filter,
                    old(self).sid_voice3.filter.kind,
                    final(self).sid_voice3.filter.cutoff as int,
                    old(self).sid_voice3.filter.resonance as int,
                ),
                ..old(self).sid_voice3
            }),
    {
        proof {
            reveal(osc_wf);
            reveal(filter_wf);
        }
        let clamped: i64 = if cutoff < 0 {
            0
        } else {
            cutoff
        };
        let normalized: i64 = normalized_cutoff(clamped);
        self.sid_voice1.filter.cutoff = normalized;
        self.sid_voice2.filter.cutoff = normalized;
        self.sid_voice3.filter.cutoff = normalized;
        update_filter_coefficients(&mut self.sid_voice1.filter);
        update_filter_coefficients(&mut self.sid_voice2.filter);
        update_filter_coefficients(&mut self.sid_voice3.filter);
    }

    /// Sets the shared resonance across all three voices, clamped into
    /// [0, 10] on this control path, and rederives each voice's
    /// coefficients.
    pub fn sid_set_filter_resonance(&mut self, resonance: i64)
        requires
            apu_wf(*old(self)),
        ensures
            apu_wf(*final(self)),
            final(self).sid_voice1.filter.resonance == clamp_spec(
                resonance as int,
                0,
                10 * (FX_ONE as int),
            ),
            *final(self) == (Apu {
                sid_voice1: final(self).sid_voice1,
                sid_voice2: final(self).sid_voice2,
                sid_voice3: final(self).sid_voice3,
                ..*old(self)
            }),
            final(self).sid_voice1 == (DigitalOscillator {
                filter: filter_with_params(
                    old(self).sid_voice1.filter,
                    old(self).sid_voice1.filter.kind,
                    old(self).sid_voice1.filter.cutoff as int,
                    final(self).sid_voice1.filter.resonance as int,
                ),
                ..old(self).sid_voice1
            }),
            final(self).sid_voice2 == (DigitalOscillator {
                filter: filter_with_params(
                    old(self).sid_voice2.filter,
                    old(self).sid_voice2.filter.kind,
                    old(self).sid_voice2.filter.cutoff as int,
                    final(self).sid_voice1.filter.resonance as int,
                ),
                ..old(self).sid_voice2
            }),
            final(self).sid_voice3 == (DigitalOscillator {
                filter: filter_with_params(
                    old(self).sid_voice3.filter,
                    old(self).sid_voice3.filter.kind,
                    old(self).sid_voice3.filter.cutoff as int,
                    final(self).sid_voice1.filter.resonance as int,
                ),
                ..old(self).sid_voice3
            }),
    {
        proof {
            reveal(osc_wf);
            reveal(filter_wf);
        }
        let clamped: i64 = fx_clamp(resonance, 0, 10 * FX_ONE);
        self.sid_voice1.filter.resonance = clamped;
        self.sid_voice2.filter.resonance = clamped;
        self.sid_voice3.filter.resonance = clamped;
        update_filter_coefficients(&mut self.sid_voice1.filter);
        update_filter_coefficients(&mut self.sid_voice2.filter);
        update_filter_coefficients(&mut self.sid_voice3.filter);
    }

    /// Selects the shared filter response across all three voices — the
    /// selector clamps to the three pass responses on this path — and
    /// rederives each voice's coefficients.
    pub fn sid_set_filter_type(&mut self, filter_type: u8)
        requires
            apu_wf(*old(self)),
        ensures
            apu_wf(*final(self)),
            final(self).sid_voice1.filter.kind == filter_kind_of_code(
                if filter_type > 2 {
                    2
                } else {
                    filter_type as int
                },
            ),
            *final(self) == (Apu {
                sid_voice1: final(self).sid_voice1,
                sid_voice2: final(self).sid_voice2,
                sid_voice3: final(self).sid_voice3,
                ..*old(self)
            }),
            final(self).sid_voice1 == (DigitalOscillator {
                filter: filter_with_params(
                    old(self).sid_voice1.filter,
                    final(self).sid_voice1.filter.kind,
                    old(self).sid_voice1.filter.cutoff as int,
                    old(self).sid_voice1.filter.resonance as int,
                ),
                ..old(self).sid_voice1
            }),
            final(self).sid_voice2 == (DigitalOscillator {
                filter: filter_with_params(
                    old(self).sid_voice2.filter,
                    final(self).sid_voice1.filter.kind,
                    old(self).sid_voice2.filter.cutoff as int,
                    old(self).sid_voice2.filter.resonance as int,
                ),
                ..old(self).sid_voice2
            }),
            final(self).sid_voice3 == (DigitalOscillator {
                filter: filter_with_params(
                    old(self).sid_voice3.filter,
                    final(self).sid_voice1.filter.kind,
                    old(self).sid_voice3.filter.cutoff as int,
                    old(self).sid_voice3.filter.resonance as int,
                ),
                ..old(self).sid_voice3
            }),
    {
        proof {
            reveal(osc_wf);
            reveal(filter_wf);
        }
        let clamped: u8 = if filter_type > 2 {
            2
        } else {
            filter_type
        };
        let kind: FilterKind = crate::filter::filter_kind_from_code(clamped);
        self.sid_voice1.filter.kind = kind;
        self.sid_voice2.filter.kind = kind;
        self.sid_voice3.filter.kind = kind;
        update_filter_coefficients(&mut self.sid_voice1.filter);
        update_filter_coefficients(&mut self.sid_voice2.filter);
        update_filter_coefficients(&mut self.sid_voice3.filter);
    }
}

} // verus!
