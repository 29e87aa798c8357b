//! The remaining control surface: sound-test mode and its manual
//! oscillator controls, the test oscillator's filter and delay controls,
//! the master volume, and the register-style writes that drive the
//! legacy pulse channel.

use vstd::prelude::*;

verus! {

use crate::fx::{FX_ONE, FX_HALF, fx_clamp, clamp_spec};
use crate::pitch::{midi_to_frequency, midi_freq_spec, FREQ_LIMIT};
use crate::oscillator::{DigitalOscillator, Waveform, waveform_of_code, waveform_from_code, osc_wf};
use crate::filter::FilterKind;
use crate::delay::{DigitalDelay, delay_wf, FEEDBACK_MAX};
use crate::channels::{PulseChannel, pulse_wf};
use crate::apu::{Apu, apu_wf};

/// The numeric code of a filter response, as the selector getters report
/// it.
pub open spec fn filter_code_of_kind(k: FilterKind) -> u8 {
    match k {
        FilterKind::Lowpass => 0,
        FilterKind::Highpass => 1,
        FilterKind::Bandpass => 2,
        FilterKind::Notch => 3,
    }
}

/// The numeric code of a waveform, as the selector getters report it.
pub open spec fn waveform_code_of(w: Waveform) -> u8 {
    match w {
        Waveform::Pulse => 0,
        Waveform::Sawtooth => 1,
        Waveform::Triangle => 2,
        Waveform::Sine => 3,
        Waveform::Noise => 4,
        Waveform::Unknown => 5,
    }
}

/// The legacy pulse channel's frequency from its 11-bit raw period,
/// through the classic formula `1789773 / (16 * (raw + 1))` hertz.
pub open spec fn pulse_period_freq(raw: int) -> int {
    7687016502263808int / (16 * (raw + 1))
}

/// The channel's current frequency read back as whole hertz, saturated
/// into 16 bits — the register file's view of it.
pub open spec fn freq_hz_sat(freq: int) -> u16 {
    if freq / (FX_ONE as int) > 65535 {
        65535
    } else {
        (freq / (FX_ONE as int)) as u16
    }
}

/// Converts an 11-bit raw period to Q32.32 hertz.
fn pulse_freq_from_period(raw: u16) -> (r: i64)
    requires
        raw <= 0x7ff,
    ensures
        r == pulse_period_freq(raw as int),
        0 < r < FREQ_LIMIT,
{
    let denom: i64 = 16 * (raw as i64 + 1);
    proof {
        vstd::arithmetic::div_mod::lemma_div_non_zero(7687016502263808, denom as int);
        vstd::arithmetic::div_mod::lemma_div_is_ordered_by_denominator(
            7687016502263808,
            16,
            denom as int,
        );
    }
    7687016502263808i64 / denom
}

impl Apu {
    /// Reads the channel's frequency back as saturated whole hertz, as
    /// the frequency registers see it.
    fn pulse1_hz(&self) -> (r: u16)
        requires
            pulse_wf(self.pulse1),
        ensures
            r == freq_hz_sat(self.pulse1.frequency as int),
    {
        proof {
            vstd::arithmetic::div_mod::lemma_div_pos_is_pos(
                self.pulse1.frequency as int,
                FX_ONE as int,
            );
            vstd::arithmetic::div_mod::lemma_multiply_divide_le(
                self.pulse1.frequency as int,
                FX_ONE as int,
                0x200000000,
            );
        }
        let hz: i64 = self.pulse1.frequency / FX_ONE;
        if hz > 65535 {
            65535
        } else {
            hz as u16
        }
    }

    /// A register-style write to the first pulse channel, mirroring an
    /// 8-bit chip's layout: register 0 packs duty and volume, register 1
    /// is the unimplemented sweep, registers 2 and 3 hold the low and
    /// high bits of the raw period, with a write to 3 also enabling the
    /// channel and resetting its phase.
    pub fn write_pulse1_register(&mut self, register: u8, value: u8)
        requires
            apu_wf(*old(self)),
        ensures
            apu_wf(*final(self)),
            register == 0 ==> *final(self) == (Apu {
                pulse1: (PulseChannel {
                    pulse_width: (value >> 6) & 3,
                    volume: value & 15,
                    ..old(self).pulse1
                }),
                ..*old(self)
            }),
            register == 2 ==> *final(self) == (Apu {
                pulse1: (PulseChannel {
                    frequency: pulse_period_freq(
                        ((freq_hz_sat(old(self).pulse1.frequency as int) & 0x700) | (
                        value as u16)) as int,
                    ) as i64,
                    ..old(self).pulse1
                }),
                ..*old(self)
            }),
            register == 3 ==> *final(self) == (Apu {
                pulse1: (PulseChannel {
                    frequency: pulse_period_freq(
                        ((((value as u16) & 7) << 8) | (freq_hz_sat(
                            old(self).pulse1.frequency as int,
                        ) & 0xff)) as int,
                    ) as i64,
                    enabled: true,
                    phase: 0,
                    ..old(self).pulse1
                }),
                ..*old(self)
            }),
            register == 1 || register > 3 ==> *final(self) == *old(self),
    {
        if register == 0 {
            proof {
                assert((value >> 6) & 3 < 4) by (bit_vector);
                assert(value & 15 < 16) by (bit_vector);
            }
            self.pulse1.pulse_width = (value >> 6) & 3;
            self.pulse1.volume = value & 15;
        } else if register == 2 {
            let sat: u16 = self.pulse1_hz();
            let raw: u16 = (sat & 0x700) | (value as u16);
            proof {
                let v: u16 = value as u16;
                assert(v <= 255 ==> ((sat & 0x700) | v) <= 0x7ff) by (bit_vector);
            }
            self.pulse1.frequency = pulse_freq_from_period(raw);
        } else if register == 3 {
            let sat: u16 = self.pulse1_hz();
            let raw: u16 = ((value as u16) & 7) << 8 | (sat & 0xff);
            proof {
                let v: u16 = value as u16;
                assert((((v & 7) << 8) | (sat & 0xff)) <= 0x7ff) by (bit_vector);
            }
            self.pulse1.frequency = pulse_freq_from_period(raw);
            self.pulse1.enabled = true;
            self.pulse1.phase = 0;
        }
    }

    /// Enters sound-test mode: the test oscillator plays the current
    /// note with the current waveform.
    pub fn enter_sound_test_mode(&mut self)
        requires
            apu_wf(*old(self)),
        ensures
            apu_wf(*final(self)),
            *final(self) == (Apu {
                sound_test_mode: true,
                test_osc: (DigitalOscillator {
                    enabled: true,
                    frequency: midi_freq_spec(old(self).current_note as int) as i64,
                    waveform: waveform_of_code(old(self).current_waveform as int),
                    ..old(self).test_osc
                }),
                ..*old(self)
            }),
    {
        proof {
            reveal(osc_wf);
        }
        self.sound_test_mode = true;
        self.test_osc.enabled = true;
        self.test_osc.frequency = midi_to_frequency(self.current_note);
        self.test_osc.waveform = waveform_from_code(self.current_waveform);
    }

    /// Leaves sound-test mode, silencing the test oscillator and
    /// stopping the melody.
    pub fn exit_sound_test_mode(&mut self)
        requires
            apu_wf(*old(self)),
        ensures
            apu_wf(*final(self)),
            *final(self) == (Apu {
                sound_test_mode: false,
                melody_enabled: false,
                test_osc: (DigitalOscillator { enabled: false, ..old(self).test_osc }),
                ..*old(self)
            }),
    {
        proof {
            reveal(osc_wf);
        }
        self.sound_test_mode = false;
        self.test_osc.enabled = false;
        self.melody_enabled = false;
    }

    /// Selects the test oscillator's waveform; codes clamp to the five
    /// real waveforms.
    pub fn sound_test_change_waveform(&mut self, waveform: u8)
        requires
            apu_wf(*old(self)),
        ensures
            apu_wf(*final(self)),
            *final(self) == (Apu {
                current_waveform: (if waveform > 4 {
                    4
                } else {
                    waveform
                }),
                test_osc: (DigitalOscillator {
                    waveform: waveform_of_code(
                        if waveform > 4 {
                            4
                        } else {
                            waveform as int
                        },
                    ),
                    ..old(self).test_osc
                }),
                ..*old(self)
            }),
    {
        proof {
            reveal(osc_wf);
        }
        self.current_waveform = if waveform > 4 {
            4
        } else {
            waveform
        };
        self.test_osc.waveform = waveform_from_code(self.current_waveform);
    }

    /// Selects the test oscillator's note, clamped to the piano range
    /// A0 to C8.
    pub fn sound_test_change_note(&mut self, note: u8)
        requires
            apu_wf(*old(self)),
        ensures
            apu_wf(*final(self)),
            *final(self) == (Apu {
                current_note: clamp_spec(note as int, 21, 108) as u8,
                test_osc: (DigitalOscillator {
                    frequency: midi_freq_spec(clamp_spec(note as int, 21, 108)) as i64,
                    ..old(self).test_osc
                }),
                ..*old(self)
            }),
    {
        proof {
            reveal(osc_wf);
        }
        self.current_note = if note < 21 {
            21
        } else if note > 108 {
            108
        } else {
            note
        };
        self.test_osc.frequency = midi_to_frequency(self.current_note);
    }

    /// Sets the test oscillator's pulse width, clamped into
    /// [0.05, 0.95].
    pub fn sound_test_set_pulse_width(&mut self, width: i64)
        requires
            apu_wf(*old(self)),
        ensures
            apu_wf(*final(self)),
            *final(self) == (Apu {
                test_osc: (DigitalOscillator {
                    pulse_width: clamp_spec(width as int, 214748364, 4080218931) as i64,
                    ..old(self).test_osc
                }),
                ..*old(self)
            }),
    {
        proof {
            reveal(osc_wf);
        }
        self.test_osc.pulse_width = fx_clamp(width, 214748364, 4080218931);
    }

    /// Sets the test oscillator's detune, clamped into [-1/2, 1/2].
    pub fn sound_test_set_detune(&mut self, detune: i64)
        requires
            apu_wf(*old(self)),
        ensures
            apu_wf(*final(self)),
            *final(self) == (Apu {
                test_osc: (DigitalOscillator {
                    detune: clamp_spec(detune as int, -FX_HALF as int, FX_HALF as int) as i64,
                    ..old(self).test_osc
                }),
                ..*old(self)
            }),
    {
        proof {
            reveal(osc_wf);
        }
        self.test_osc.detune = fx_clamp(detune, -FX_HALF, FX_HALF);
    }

    pub fn get_current_waveform(&self) -> (r: u8)
        ensures
            r == self.current_waveform,
    {
        self.current_waveform
    }

    pub fn get_current_note(&self) -> (r: u8)
        ensures
            r == self.current_note,
    {
        self.current_note
    }

    pub fn is_sound_test_mode(&self) -> (r: bool)
        ensures
            r == self.sound_test_mode,
    {
        self.sound_test_mode
    }

    pub fn get_filter_cutoff(&self) -> (r: i64)
        ensures
            r == self.test_osc.filter.cutoff,
    {
        self.test_osc.filter.cutoff
    }

    pub fn get_filter_resonance(&self) -> (r: i64)
        ensures
            r == self.test_osc.filter.resonance,
    {
        self.test_osc.filter.resonance
    }

    pub fn get_filter_type(&self) -> (r: u8)
        ensures
            r == filter_code_of_kind(self.test_osc.filter.kind),
    {
        match self.test_osc.filter.kind {
            FilterKind::Lowpass => 0,
            FilterKind::Highpass => 1,
            FilterKind::Bandpass => 2,
            FilterKind::Notch => 3,
        }
    }

    /// Switches the test oscillator's delay effect on or off.
    pub fn set_delay_enabled(&mut self, enabled: bool)
        requires
            apu_wf(*old(self)),
        ensures
            apu_wf(*final(self)),
            *final(self) == (Apu {
                test_osc: (DigitalOscillator {
                    delay: (DigitalDelay { enabled: enabled, ..old(self).test_osc.delay }),
                    ..old(self).test_osc
                }),
                ..*old(self)
            }),
    {
        proof {
            reveal(osc_wf);
            reveal(delay_wf);
        }
        self.test_osc.delay.enabled = enabled;
    }

    /// Sets the test oscillator's delay time, clamped into [0, 1].
    pub fn set_delay_time(&mut self, delay_time: i64)
        requires
            apu_wf(*old(self)),
        ensures
            apu_wf(*final(self)),
            *final(self) == (Apu {
                test_osc: (DigitalOscillator {
                    delay: (DigitalDelay {
                        delay_time: clamp_spec(delay_time as int, 0, FX_ONE as int) as i64,
                        ..old(self).test_osc.delay
                    }),
                    ..old(self).test_osc
                }),
                ..*old(self)
            }),
    {
        proof {
            reveal(osc_wf);
            reveal(delay_wf);
        }
        self.test_osc.delay.delay_time = fx_clamp(delay_time, 0, FX_ONE);
    }

    /// Sets the test oscillator's delay feedback, hard-capped below
    /// unity at 0.95 to prevent runaway.
    pub fn set_delay_feedback(&mut self, feedback: i64)
        requires
            apu_wf(*old(self)),
        ensures
            apu_wf(*final(self)),
            *final(self) == (Apu {
                test_osc: (DigitalOscillator {
                    delay: (DigitalDelay {
                        feedback: clamp_spec(feedback as int, 0, FEEDBACK_MAX as int) as i64,
                        ..old(self).test_osc.delay
                    }),
                    ..old(self).test_osc
                }),
                ..*old(self)
            }),
    {
        proof {
            reveal(osc_wf);
            reveal(delay_wf);
        }
        self.test_osc.delay.feedback = fx_clamp(feedback, 0, FEEDBACK_MAX);
    }

    /// Sets the test oscillator's dry/wet mix, clamped into [0, 1].
    pub fn set_delay_mix(&mut self, mix: i64)
        requires
            apu_wf(*old(self)),
        ensures
            apu_wf(*final(self)),
            *final(self) == (Apu {
                test_osc: (DigitalOscillator {
                    delay: (DigitalDelay {
                        mix: clamp_spec(mix as int, 0, FX_ONE as int) as i64,
                        ..old(self).test_osc.delay
                    }),
                    ..old(self).test_osc
                }),
                ..*old(self)
            }),
    {
        proof {
            reveal(osc_wf);
            reveal(delay_wf);
        }
        self.test_osc.delay.mix = fx_clamp(mix, 0, FX_ONE);
    }

    pub fn get_delay_enabled(&self) -> (r: bool)
        ensures
            r == self.test_osc.delay.enabled,
    {
        self.test_osc.delay.enabled
    }

    pub fn get_delay_time(&self) -> (r: i64)
        ensures
            r == self.test_osc.delay.delay_time,
    {
        self.test_osc.delay.delay_time
    }

    pub fn get_delay_feedback(&self) -> (r: i64)
        ensures
            r == self.test_osc.delay.feedback,
    {
        self.test_osc.delay.feedback
    }

    pub fn get_delay_mix(&self) -> (r: i64)
        ensures
            r == self.test_osc.delay.mix,
    {
        self.test_osc.delay.mix
    }

    /// Sets the master volume, clamped into [0, 1].
    pub fn set_master_volume(&mut self, volume: i64)
        requires
            apu_wf(*old(self)),
        ensures
            apu_wf(*final(self)),
            *final(self) == (Apu {
                master_volume: clamp_spec(volume as int, 0, FX_ONE as int) as i64,
                ..*old(self)
            }),
    {
        self.master_volume = fx_clamp(volume, 0, FX_ONE);
    }
}

} // verus!
