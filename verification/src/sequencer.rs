//! The time-driven sequencers: the 16-step demo melody and the
//! sweep-style sound-effect envelope, both advancing by one fixed tick of
//! simulated time per `step` call, plus `step` itself, which also drives
//! the voice-effect machine.

use vstd::prelude::*;

verus! {

use crate::fx::{
    FX_ONE,
    FX_HALF,
    fx_div,
    fx_mul,
    fx_clamp,
    fx_mul_spec,
    fx_div_spec,
    clamp_spec,
    lemma_fx_mul_le,
    lemma_fx_mul_nonneg,
    lemma_fx_mul_nonpos,
    lemma_fx_div_below_one,
};
use crate::pitch::{midi_to_frequency, midi_freq_spec};
use crate::oscillator::{DigitalOscillator, Waveform, waveform_of_code, waveform_from_code, osc_wf};
use crate::apu::{Apu, apu_wf, melody_note_spec, STEP_TICK, DURATION_LIMIT};
use crate::voicefx::voice_stepped;

/// How long one melody step lasts: the reciprocal of the tempo.
pub open spec fn melody_step_duration(tempo: int) -> int {
    fx_div_spec(FX_ONE as int, tempo)
}

/// Whether this tick carries the melody over a step boundary.
pub open spec fn melody_fires(a: Apu) -> bool {
    a.melody_enabled && a.melody_timer + STEP_TICK >= melody_step_duration(a.melody_tempo as int)
}

pub open spec fn melody_timer_next(a: Apu) -> int {
    if !a.melody_enabled {
        a.melody_timer as int
    } else if melody_fires(a) {
        0
    } else {
        a.melody_timer + STEP_TICK
    }
}

pub open spec fn melody_step_next(a: Apu) -> int {
    if melody_fires(a) {
        (a.melody_step + 1) % 16
    } else {
        a.melody_step as int
    }
}

/// The melody note entered on a firing tick.
pub open spec fn melody_new_note(a: Apu) -> u8 {
    melody_note_spec(melody_step_next(a))
}

/// The chip's current note after the melody's share of a tick.
pub open spec fn note_after_melody(a: Apu) -> u8 {
    if melody_fires(a) && melody_new_note(a) > 0 {
        melody_new_note(a)
    } else {
        a.current_note
    }
}

pub open spec fn osc_freq_after_melody(a: Apu) -> int {
    if melody_fires(a) && melody_new_note(a) > 0 {
        midi_freq_spec(melody_new_note(a) as int)
    } else {
        a.test_osc.frequency as int
    }
}

pub open spec fn osc_enabled_after_melody(a: Apu) -> bool {
    if melody_fires(a) {
        melody_new_note(a) > 0
    } else {
        a.test_osc.enabled
    }
}

/// Whether this tick carries an active sound effect past its end.
pub open spec fn sfx_finishes(a: Apu) -> bool {
    a.sfx_active && a.sfx_timer + STEP_TICK >= a.sfx_duration
}

/// The MIDI note a running sound effect plays this tick: the start note
/// moved toward the end note by the envelope's progress, truncated to a
/// whole note number.
pub open spec fn sfx_note_spec(ticked: int, duration: int, start: int, end: int) -> int {
    (start * (FX_ONE as int) + fx_mul_spec(
        (end - start) * (FX_ONE as int),
        fx_div_spec(ticked, duration),
    )) / (FX_ONE as int)
}

pub open spec fn sfx_note(a: Apu) -> int {
    sfx_note_spec(
        a.sfx_timer + STEP_TICK,
        a.sfx_duration as int,
        a.sfx_start_note as int,
        a.sfx_end_note as int,
    )
}

/// The test oscillator's frequency after a whole tick: a running sound
/// effect drives it through the interpolated note; a finishing one lands
/// it exactly on the end note, unless manual sound-test control (with no
/// melody) takes it back at its current note.
pub open spec fn osc_freq_after_step(a: Apu) -> int {
    if a.sfx_active {
        if !sfx_finishes(a) {
            midi_freq_spec(sfx_note(a))
        } else if a.sound_test_mode && !a.melody_enabled {
            midi_freq_spec(a.current_note as int)
        } else {
            midi_freq_spec(a.sfx_end_note as int)
        }
    } else {
        osc_freq_after_melody(a)
    }
}

pub open spec fn osc_enabled_after_step(a: Apu) -> bool {
    if a.sfx_active {
        if !sfx_finishes(a) {
            true
        } else if a.sound_test_mode && !a.melody_enabled {
            osc_enabled_after_melody(a)
        } else {
            false
        }
    } else {
        osc_enabled_after_melody(a)
    }
}

pub open spec fn osc_waveform_after_step(a: Apu) -> Waveform {
    if a.sfx_active && !sfx_finishes(a) {
        waveform_of_code(a.sfx_waveform as int)
    } else {
        a.test_osc.waveform
    }
}

/// Melody stepping law: on a tick that carries the melody over a step
/// boundary while no sound effect runs, the step index advances by
/// exactly one (wrapping past the sixteenth step); a rest (note value 0)
/// at the new step silences the test oscillator, and a note retunes and
/// enables it. A running sound effect is left out: it drives the
/// oscillator itself and overrides the melody's write on that tick.
pub proof fn lemma_melody_stepping(a: Apu)
    requires
        !a.sfx_active,
        melody_fires(a),
    ensures
        melody_step_next(a) == (a.melody_step + 1) % 16,
        melody_new_note(a) == 0 ==> !osc_enabled_after_step(a),
        melody_new_note(a) > 0 ==> osc_enabled_after_step(a) && osc_freq_after_step(a)
            == midi_freq_spec(melody_new_note(a) as int),
{
}

impl Apu {
    /// Advances the melody by one tick: past the step boundary it moves
    /// to the next of the 16 steps, playing its note on the test
    /// oscillator, or silencing the oscillator on a rest (note 0).
    #[verifier::rlimit(100)]
    fn melody_tick(&mut self)
        requires
            apu_wf(*old(self)),
        ensures
            apu_wf(*final(self)),
            final(self).melody_timer == melody_timer_next(*old(self)),
            final(self).melody_step == melody_step_next(*old(self)),
            final(self).current_note == note_after_melody(*old(self)),
            final(self).test_osc == (DigitalOscillator {
                enabled: osc_enabled_after_melody(*old(self)),
                frequency: osc_freq_after_melody(*old(self)) as i64,
                ..old(self).test_osc
            }),
            *final(self) == (Apu {
                melody_timer: final(self).melody_timer,
                melody_step: final(self).melody_step,
                current_note: final(self).current_note,
                test_osc: final(self).test_osc,
                ..*old(self)
            }),
    {
        proof {
            reveal(osc_wf);
        }
        if !self.melody_enabled {
            return ;
        }
        self.melody_timer = self.melody_timer + STEP_TICK;
        proof {
            vstd::arithmetic::div_mod::lemma_div_pos_is_pos(
                (FX_ONE as int) * (FX_ONE as int),
                self.melody_tempo as int,
            );
            vstd::arithmetic::div_mod::lemma_div_is_ordered_by_denominator(
                (FX_ONE as int) * (FX_ONE as int),
                FX_HALF as int,
                self.melody_tempo as int,
            );
        }
        let step_duration: i64 = fx_div(FX_ONE, self.melody_tempo);
        if self.melody_timer >= step_duration {
            self.melody_timer = 0;
            self.melody_step = (self.melody_step + 1) % 16;
            let note: u8 = self.melody_notes[self.melody_step];
            if note > 0 {
                self.current_note = note;
                self.test_osc.frequency = midi_to_frequency(note);
                self.test_osc.enabled = true;
            } else {
                self.test_osc.enabled = false;
            }
        }
    }

    /// Advances an active sound effect by one tick: while running it
    /// interpolates the note linearly from start to end and keeps the
    /// test oscillator on; past its duration it deactivates, landing the
    /// sweep exactly on its end note, or hands the oscillator back to
    /// manual sound-test control.
    #[verifier::rlimit(100)]
    fn sfx_tick(&mut self)
        requires
            apu_wf(*old(self)),
        ensures
            apu_wf(*final(self)),
            final(self).sfx_active == (old(self).sfx_active && !sfx_finishes(*old(self))),
            final(self).sfx_timer == if old(self).sfx_active {
                old(self).sfx_timer + STEP_TICK
            } else {
                old(self).sfx_timer as int
            },
            final(self).test_osc == (DigitalOscillator {
                enabled: if old(self).sfx_active {
                    if !sfx_finishes(*old(self)) {
                        true
                    } else if old(self).sound_test_mode && !old(self).melody_enabled {
                        old(self).test_osc.enabled
                    } else {
                        false
                    }
                } else {
                    old(self).test_osc.enabled
                },
                frequency: if old(self).sfx_active {
                    if !sfx_finishes(*old(self)) {
                        midi_freq_spec(sfx_note(*old(self))) as i64
                    } else if old(self).sound_test_mode && !old(self).melody_enabled {
                        midi_freq_spec(old(self).current_note as int) as i64
                    } else {
                        midi_freq_spec(old(self).sfx_end_note as int) as i64
                    }
                } else {
                    old(self).test_osc.frequency
                },
                waveform: if old(self).sfx_active && !sfx_finishes(*old(self)) {
                    waveform_of_code(old(self).sfx_waveform as int)
                } else {
                    old(self).test_osc.waveform
                },
                ..old(self).test_osc
            }),
            *final(self) == (Apu {
                sfx_active: final(self).sfx_active,
                sfx_timer: final(self).sfx_timer,
                test_osc: final(self).test_osc,
                ..*old(self)
            }),
    {
        proof {
            reveal(osc_wf);
        }
        if !self.sfx_active {
            return ;
        }
        self.sfx_timer = self.sfx_timer + STEP_TICK;
        if self.sfx_timer >= self.sfx_duration {
            self.sfx_active = false;
            if self.sound_test_mode && !self.melody_enabled {
                self.test_osc.frequency = midi_to_frequency(self.current_note);
            } else {
                self.test_osc.frequency = midi_to_frequency(self.sfx_end_note);
                self.test_osc.enabled = false;
            }
        } else {
            proof {
                lemma_fx_div_below_one(self.sfx_timer as int, self.sfx_duration as int);
                let p = fx_div_spec(self.sfx_timer as int, self.sfx_duration as int);
                let diff = (self.sfx_end_note as int - self.sfx_start_note as int) * (
                FX_ONE as int);
                lemma_fx_mul_le(diff, p, 1095216660480, 4294967296, 1095216660480);
                if diff >= 0 {
                    lemma_fx_mul_nonneg(diff, p);
                    lemma_fx_mul_le(diff, p, diff, 4294967296, diff);
                } else {
                    lemma_fx_mul_nonpos(diff, p);
                    lemma_fx_mul_le(diff, p, -diff, 4294967296, -diff);
                }
            }
            let progress: i64 = fx_div(self.sfx_timer, self.sfx_duration);
            let diff: i64 = (self.sfx_end_note as i64 - self.sfx_start_note as i64) * FX_ONE;
            let note_fx: i64 = (self.sfx_start_note as i64) * FX_ONE + fx_mul(diff, progress);
            proof {
                vstd::arithmetic::div_mod::lemma_div_pos_is_pos(note_fx as int, FX_ONE as int);
                vstd::arithmetic::div_mod::lemma_multiply_divide_le(
                    note_fx as int,
                    FX_ONE as int,
                    255,
                );
            }
            let note: u8 = (note_fx / FX_ONE) as u8;
            self.test_osc.frequency = midi_to_frequency(note);
            self.test_osc.waveform = waveform_from_code(self.sfx_waveform);
            self.test_osc.enabled = true;
        }
    }

    /// Advances the chip by one tick of simulated time — one hardware
    /// cycle at sixty 29780-cycle frames per second: the melody, the
    /// sound-effect envelope and the voice-effect machine each move by
    /// the same fixed increment, and the frame counter advances.
    #[verifier::rlimit(100)]
    pub fn step(&mut self)
        requires
            apu_wf(*old(self)),
        ensures
            apu_wf(*final(self)),
            old(self).frame_counter < 0xffffffff ==> final(self).frame_counter == old(
                self,
            ).frame_counter + 1,
            final(self).melody_timer == melody_timer_next(*old(self)),
            final(self).melody_step == melody_step_next(*old(self)),
            final(self).current_note == note_after_melody(*old(self)),
            final(self).sfx_active == (old(self).sfx_active && !sfx_finishes(*old(self))),
            final(self).sfx_timer == if old(self).sfx_active {
                old(self).sfx_timer + STEP_TICK
            } else {
                old(self).sfx_timer as int
            },
            final(self).test_osc == (DigitalOscillator {
                enabled: osc_enabled_after_step(*old(self)),
                frequency: osc_freq_after_step(*old(self)) as i64,
                waveform: osc_waveform_after_step(*old(self)),
                ..old(self).test_osc
            }),
            voice_stepped(*old(self), *final(self)),
            *final(self) == (Apu {
                frame_counter: final(self).frame_counter,
                melody_timer: final(self).melody_timer,
                melody_step: final(self).melody_step,
                current_note: final(self).current_note,
                sfx_active: final(self).sfx_active,
                sfx_timer: final(self).sfx_timer,
                test_osc: final(self).test_osc,
                voice_active: final(self).voice_active,
                voice_timer: final(self).voice_timer,
                voice_stage: final(self).voice_stage,
                voice_stage_timer: final(self).voice_stage_timer,
                voice_oscillator: final(self).voice_oscillator,
                ..*old(self)
            }),
    {
        proof {
            reveal(voice_stepped);
        }
        self.frame_counter = self.frame_counter.wrapping_add(1);
        self.melody_tick();
        self.sfx_tick();
        self.voice_tick();
    }

    /// Turns the demo melody on or off. Turning it on enters sound-test
    /// mode, rewinds the melody to its first step and starts its first
    /// note; turning it off hands the test oscillator back to manual
    /// control if sound-test mode is still on.
    pub fn set_melody_enabled(&mut self, enabled: bool)
        requires
            apu_wf(*old(self)),
        ensures
            apu_wf(*final(self)),
            final(self).melody_enabled == enabled,
            enabled ==> {
                &&& final(self).sound_test_mode
                &&& final(self).melody_step == 0
                &&& final(self).melody_timer == 0
                &&& final(self).current_note == melody_note_spec(0)
                &&& final(self).test_osc == (DigitalOscillator {
                    enabled: true,
                    frequency: midi_freq_spec(melody_note_spec(0) as int) as i64,
                    waveform: waveform_of_code(old(self).current_waveform as int),
                    ..old(self).test_osc
                })
                &&& *final(self) == (Apu {
                    melody_enabled: true,
                    sound_test_mode: true,
                    melody_step: 0,
                    melody_timer: 0,
                    current_note: final(self).current_note,
                    test_osc: final(self).test_osc,
                    ..*old(self)
                })
            },
            !enabled ==> {
                &&& final(self).test_osc == (DigitalOscillator {
                    enabled: old(self).sound_test_mode || old(self).test_osc.enabled,
                    frequency: if old(self).sound_test_mode {
                        midi_freq_spec(old(self).current_note as int) as i64
                    } else {
                        old(self).test_osc.frequency
                    },
                    ..old(self).test_osc
                })
                &&& *final(self) == (Apu {
                    melody_enabled: false,
                    test_osc: final(self).test_osc,
                    ..*old(self)
                })
            },
    {
        proof {
            reveal(osc_wf);
        }
        self.melody_enabled = enabled;
        if enabled {
            self.melody_step = 0;
            self.melody_timer = 0;
            self.sound_test_mode = true;
            self.test_osc.enabled = true;
            self.test_osc.waveform = waveform_from_code(self.current_waveform);
            let note: u8 = self.melody_notes[0];
            if note > 0 {
                self.current_note = note;
                self.test_osc.frequency = midi_to_frequency(note);
            }
        } else {
            if self.sound_test_mode {
                self.test_osc.frequency = midi_to_frequency(self.current_note);
                self.test_osc.enabled = true;
            }
        }
    }

    pub fn get_melody_enabled(&self) -> (r: bool)
        ensures
            r == self.melody_enabled,
    {
        self.melody_enabled
    }

    /// Sets the melody tempo in steps per second, clamped into [0.5, 4].
    pub fn set_melody_tempo(&mut self, tempo: i64)
        requires
            apu_wf(*old(self)),
        ensures
            apu_wf(*final(self)),
            *final(self) == (Apu {
                melody_tempo: clamp_spec(tempo as int, FX_HALF as int, 4 * (FX_ONE as int)) as i64,
                ..*old(self)
            }),
    {
        self.melody_tempo = fx_clamp(tempo, FX_HALF, 4 * FX_ONE);
    }

    pub fn get_melody_tempo(&self) -> (r: i64)
        ensures
            r == self.melody_tempo,
    {
        self.melody_tempo
    }

    /// Starts a sweep sound effect from one note to another over the
    /// given duration (Q32.32 seconds, defensively clamped), unless one
    /// is already running — a playing effect is never interrupted. The
    /// test oscillator starts immediately at the start note.
    pub fn play_sound_effect(&mut self, start_note: u8, end_note: u8, waveform: u8, duration: i64)
        requires
            apu_wf(*old(self)),
        ensures
            apu_wf(*final(self)),
            old(self).sfx_active ==> *final(self) == *old(self),
            !old(self).sfx_active ==> {
                &&& final(self).sfx_active
                &&& final(self).sfx_timer == 0
                &&& final(self).sfx_duration == clamp_spec(duration as int, 0, DURATION_LIMIT as int)
                &&& final(self).sfx_start_note == start_note
                &&& final(self).sfx_end_note == end_note
                &&& final(self).sfx_waveform == waveform
                &&& final(self).test_osc == (DigitalOscillator {
                    enabled: true,
                    frequency: midi_freq_spec(start_note as int) as i64,
                    waveform: waveform_of_code(waveform as int),
                    ..old(self).test_osc
                })
                &&& *final(self) == (Apu {
                    sfx_active: true,
                    sfx_timer: 0,
                    sfx_duration: final(self).sfx_duration,
                    sfx_start_note: start_note,
                    sfx_end_note: end_note,
                    sfx_waveform: waveform,
                    test_osc: final(self).test_osc,
                    ..*old(self)
                })
            },
    {
        if self.sfx_active {
            return ;
        }
        proof {
            reveal(osc_wf);
        }
        self.sfx_active = true;
        self.sfx_timer = 0;
        self.sfx_duration = fx_clamp(duration, 0, DURATION_LIMIT);
        self.sfx_start_note = start_note;
        self.sfx_end_note = end_note;
        self.sfx_waveform = waveform;
        self.test_osc.frequency = midi_to_frequency(start_note);
        self.test_osc.waveform = waveform_from_code(waveform);
        self.test_osc.enabled = true;
    }
}

} // verus!
