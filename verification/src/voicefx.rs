//! The voice-effect state machine: chip-tune "laugh", "gasp" and "grunt"
//! effects that drive a dedicated oscillator through timed stages.
//!
//! The laugh alternates three one-second "ha" tones with half-second
//! gaps, stepping pitch and level each tone, and ends after the last
//! gap. The gasp sweeps from 150 Hz to 800 Hz over 0.2 s while fading
//! out; the grunt bends from 80 Hz down to 70 Hz over 0.15 s at fixed
//! level. All transitions are time-triggered by `step`, never by events.

use vstd::prelude::*;

verus! {

use crate::fx::{
    FX_ONE,
    FX_HALF,
    fx_mul,
    fx_div,
    fx_mul_spec,
    fx_div_spec,
    lemma_fx_mul_le,
    lemma_fx_mul_nonneg,
    lemma_fx_div_below_one,
};
use crate::oscillator::{DigitalOscillator, Waveform, osc_wf};
use crate::apu::{Apu, apu_wf, STEP_TICK};

/// Laugh stages alternate one-second tones (even stages) and half-second
/// gaps (odd stages).
pub open spec fn laugh_stage_duration(stage: int) -> int {
    if stage % 2 == 0 {
        FX_ONE as int
    } else {
        FX_HALF as int
    }
}

/// The gasp's rising sweep: 150 Hz up towards 800 Hz.
pub open spec fn gasp_freq(p: int) -> int {
    644245094400 + fx_mul_spec(2791728742400, p)
}

/// The gasp's fade-out: 0.3 of full level down to silence.
pub open spec fn gasp_vol(p: int) -> int {
    fx_mul_spec(1288490188, FX_ONE as int - p)
}

/// The grunt's downward bend: 80 Hz down towards 70 Hz.
pub open spec fn grunt_freq(p: int) -> int {
    343597383680 - fx_mul_spec(42949672960, p)
}

/// How one timer tick transforms the voice-effect machine and its
/// oscillator; nothing else of the chip moves here.
#[verifier::opaque]
pub open spec fn voice_stepped(a: Apu, n: Apu) -> bool {
    if !a.voice_active {
        &&& n.voice_active == a.voice_active
        &&& n.voice_timer == a.voice_timer
        &&& n.voice_stage == a.voice_stage
        &&& n.voice_stage_timer == a.voice_stage_timer
        &&& n.voice_oscillator == a.voice_oscillator
    } else {
        let vt = a.voice_timer + STEP_TICK;
        let st = a.voice_stage_timer + STEP_TICK;
        &&& n.voice_timer == vt
        &&& if a.voice_type == 0 {
            if st >= laugh_stage_duration(a.voice_stage as int) {
                let stage = a.voice_stage + 1;
                &&& n.voice_stage == stage
                &&& n.voice_stage_timer == 0
                &&& if stage == 1 || stage == 3 || stage == 5 {
                    &&& n.voice_active
                    &&& n.voice_oscillator == (DigitalOscillator {
                        enabled: false,
                        ..a.voice_oscillator
                    })
                } else if stage == 2 {
                    &&& n.voice_active
                    &&& n.voice_oscillator == (DigitalOscillator {
                        enabled: true,
                        frequency: 1717986918400,
                        volume: 1503238553,
                        ..a.voice_oscillator
                    })
                } else if stage == 4 {
                    &&& n.voice_active
                    &&& n.voice_oscillator == (DigitalOscillator {
                        enabled: true,
                        frequency: 1503238553600,
                        volume: 1288490188,
                        ..a.voice_oscillator
                    })
                } else {
                    &&& !n.voice_active
                    &&& n.voice_oscillator == (DigitalOscillator {
                        enabled: false,
                        ..a.voice_oscillator
                    })
                }
            } else {
                &&& n.voice_active
                &&& n.voice_stage == a.voice_stage
                &&& n.voice_stage_timer == st
                &&& n.voice_oscillator == a.voice_oscillator
            }
        } else if a.voice_type == 1 {
            &&& n.voice_stage == a.voice_stage
            &&& n.voice_stage_timer == st
            &&& if vt >= 858993459 {
                &&& !n.voice_active
                &&& n.voice_oscillator == (DigitalOscillator {
                    enabled: false,
                    ..a.voice_oscillator
                })
            } else {
                &&& n.voice_active
                &&& n.voice_oscillator == (DigitalOscillator {
                    frequency: gasp_freq(fx_div_spec(vt, 858993459)) as i64,
                    volume: gasp_vol(fx_div_spec(vt, 858993459)) as i64,
                    ..a.voice_oscillator
                })
            }
        } else if a.voice_type == 2 {
            &&& n.voice_stage == a.voice_stage
            &&& n.voice_stage_timer == st
            &&& if vt >= 644245094 {
                &&& !n.voice_active
                &&& n.voice_oscillator == (DigitalOscillator {
                    enabled: false,
                    ..a.voice_oscillator
                })
            } else {
                &&& n.voice_active
                &&& n.voice_oscillator == (DigitalOscillator {
                    frequency: grunt_freq(fx_div_spec(vt, 644245094)) as i64,
                    volume: 2147483648,
                    ..a.voice_oscillator
                })
            }
        } else {
            &&& !n.voice_active
            &&& n.voice_stage == a.voice_stage
            &&& n.voice_stage_timer == st
            &&& n.voice_oscillator == a.voice_oscillator
        }
    }
}

impl Apu {
    /// Advances the laugh by one tick after its timers moved: on a stage
    /// boundary the machine steps to the next tone or gap, and past the
    /// last gap it shuts the oscillator off and ends the effect.
    fn update_laughter_effect(&mut self)
        requires
            old(self).voice_active,
            old(self).voice_stage <= 6,
            0 <= old(self).voice_stage_timer <= FX_ONE as int + STEP_TICK,
            osc_wf(old(self).voice_oscillator),
        ensures
            osc_wf(final(self).voice_oscillator),
            final(self).voice_oscillator.filter == old(self).voice_oscillator.filter,
            final(self).voice_oscillator.delay == old(self).voice_oscillator.delay,
            final(self).voice_stage <= 7,
            final(self).voice_active ==> {
                &&& final(self).voice_stage <= 6
                &&& 0 <= final(self).voice_stage_timer <= FX_ONE
                &&& final(self).voice_stage_timer <= old(self).voice_stage_timer
            },
            if old(self).voice_stage_timer >= laugh_stage_duration(old(self).voice_stage as int) {
                &&& final(self).voice_stage == old(self).voice_stage + 1
                &&& final(self).voice_stage_timer == 0
                &&& if final(self).voice_stage == 1 || final(self).voice_stage == 3
                    || final(self).voice_stage == 5 {
                    &&& final(self).voice_active
                    &&& final(self).voice_oscillator == (DigitalOscillator {
                        enabled: false,
                        ..old(self).voice_oscillator
                    })
                } else if final(self).voice_stage == 2 {
                    &&& final(self).voice_active
                    &&& final(self).voice_oscillator == (DigitalOscillator {
                        enabled: true,
                        frequency: 1717986918400,
                        volume: 1503238553,
                        ..old(self).voice_oscillator
                    })
                } else if final(self).voice_stage == 4 {
                    &&& final(self).voice_active
                    &&& final(self).voice_oscillator == (DigitalOscillator {
                        enabled: true,
                        frequency: 1503238553600,
                        volume: 1288490188,
                        ..old(self).voice_oscillator
                    })
                } else {
                    &&& !final(self).voice_active
                    &&& final(self).voice_oscillator == (DigitalOscillator {
                        enabled: false,
                        ..old(self).voice_oscillator
                    })
                }
            } else {
                &&& final(self).voice_active
                &&& final(self).voice_stage == old(self).voice_stage
                &&& final(self).voice_stage_timer == old(self).voice_stage_timer
                &&& final(self).voice_oscillator == old(self).voice_oscillator
            },
            *final(self) == (Apu {
                voice_active: final(self).voice_active,
                voice_stage: final(self).voice_stage,
                voice_stage_timer: final(self).voice_stage_timer,
                voice_oscillator: final(self).voice_oscillator,
                ..*old(self)
            }),
    {
        let stage_duration: i64 = if self.voice_stage % 2 == 0 {
            FX_ONE
        } else {
            FX_HALF
        };
        if self.voice_stage_timer >= stage_duration {
            self.voice_stage_timer = 0;
            self.voice_stage = self.voice_stage + 1;
            if self.voice_stage == 1 || self.voice_stage == 3 || self.voice_stage == 5 {
                self.voice_oscillator.enabled = false;
            } else if self.voice_stage == 2 {
                self.voice_oscillator.enabled = true;
                self.voice_oscillator.frequency = 1717986918400;
                self.voice_oscillator.volume = 1503238553;
            } else if self.voice_stage == 4 {
                self.voice_oscillator.enabled = true;
                self.voice_oscillator.frequency = 1503238553600;
                self.voice_oscillator.volume = 1288490188;
            } else {
                self.voice_active = false;
                self.voice_oscillator.enabled = false;
            }
            proof {
                reveal(osc_wf);
            }
        }
    }

    /// Advances the gasp by one tick after its timers moved: a rising
    /// sweep with a fade-out that ends after 0.2 seconds.
    fn update_gasp_effect(&mut self)
        requires
            old(self).voice_active,
            0 <= old(self).voice_timer,
            osc_wf(old(self).voice_oscillator),
        ensures
            osc_wf(final(self).voice_oscillator),
            final(self).voice_oscillator.filter == old(self).voice_oscillator.filter,
            final(self).voice_oscillator.delay == old(self).voice_oscillator.delay,
            if old(self).voice_timer >= 858993459 {
                &&& !final(self).voice_active
                &&& final(self).voice_oscillator == (DigitalOscillator {
                    enabled: false,
                    ..old(self).voice_oscillator
                })
            } else {
                &&& final(self).voice_active
                &&& final(self).voice_oscillator == (DigitalOscillator {
                    frequency: gasp_freq(
                        fx_div_spec(old(self).voice_timer as int, 858993459),
                    ) as i64,
                    volume: gasp_vol(fx_div_spec(old(self).voice_timer as int, 858993459)) as i64,
                    ..old(self).voice_oscillator
                })
            },
            *final(self) == (Apu {
                voice_active: final(self).voice_active,
                voice_oscillator: final(self).voice_oscillator,
                ..*old(self)
            }),
    {
        if self.voice_timer >= 858993459 {
            self.voice_active = false;
            self.voice_oscillator.enabled = false;
        } else {
            proof {
                lemma_fx_div_below_one(self.voice_timer as int, 858993459);
                let p = fx_div_spec(self.voice_timer as int, 858993459);
                lemma_fx_mul_le(2791728742400, p, 2791728742400, 4294967296, 2791728742400);
                lemma_fx_mul_nonneg(2791728742400, p);
                lemma_fx_mul_le(1288490188, FX_ONE as int - p, 1288490188, 4294967296, 1288490188);
                lemma_fx_mul_nonneg(1288490188, FX_ONE as int - p);
            }
            let progress: i64 = fx_div(self.voice_timer, 858993459);
            self.voice_oscillator.frequency = 644245094400 + fx_mul(2791728742400, progress);
            self.voice_oscillator.volume = fx_mul(1288490188, FX_ONE - progress);
        }
        proof {
            reveal(osc_wf);
        }
    }

    /// Advances the grunt by one tick after its timers moved: a slight
    /// downward bend at fixed level that ends after 0.15 seconds.
    fn update_grunt_effect(&mut self)
        requires
            old(self).voice_active,
            0 <= old(self).voice_timer,
            osc_wf(old(self).voice_oscillator),
        ensures
            osc_wf(final(self).voice_oscillator),
            final(self).voice_oscillator.filter == old(self).voice_oscillator.filter,
            final(self).voice_oscillator.delay == old(self).voice_oscillator.delay,
            if old(self).voice_timer >= 644245094 {
                &&& !final(self).voice_active
                &&& final(self).voice_oscillator == (DigitalOscillator {
                    enabled: false,
                    ..old(self).voice_oscillator
                })
            } else {
                &&& final(self).voice_active
                &&& final(self).voice_oscillator == (DigitalOscillator {
                    frequency: grunt_freq(
                        fx_div_spec(old(self).voice_timer as int, 644245094),
                    ) as i64,
                    volume: 2147483648,
                    ..old(self).voice_oscillator
                })
            },
            *final(self) == (Apu {
                voice_active: final(self).voice_active,
                voice_oscillator: final(self).voice_oscillator,
                ..*old(self)
            }),
    {
        if self.voice_timer >= 644245094 {
            self.voice_active = false;
            self.voice_oscillator.enabled = false;
        } else {
            proof {
                lemma_fx_div_below_one(self.voice_timer as int, 644245094);
                let p = fx_div_spec(self.voice_timer as int, 644245094);
                lemma_fx_mul_le(42949672960, p, 42949672960, 4294967296, 42949672960);
                lemma_fx_mul_nonneg(42949672960, p);
            }
            let progress: i64 = fx_div(self.voice_timer, 644245094);
            self.voice_oscillator.frequency = 343597383680 - fx_mul(42949672960, progress);
            self.voice_oscillator.volume = 2147483648;
        }
        proof {
            reveal(osc_wf);
        }
    }

    /// Advances the voice-effect machine by one tick of simulated time,
    /// dispatching on the effect kind; an unknown kind just ends.
    pub(crate) fn voice_tick(&mut self)
        requires
            apu_wf(*old(self)),
        ensures
            apu_wf(*final(self)),
            voice_stepped(*old(self), *final(self)),
            *final(self) == (Apu {
                voice_active: final(self).voice_active,
                voice_timer: final(self).voice_timer,
                voice_stage: final(self).voice_stage,
                voice_stage_timer: final(self).voice_stage_timer,
                voice_oscillator: final(self).voice_oscillator,
                ..*old(self)
            }),
    {
        proof {
            reveal(voice_stepped);
        }
        if !self.voice_active {
            return ;
        }
        self.voice_timer = self.voice_timer + STEP_TICK;
        self.voice_stage_timer = self.voice_stage_timer + STEP_TICK;
        if self.voice_type == 0 {
            self.update_laughter_effect();
        } else if self.voice_type == 1 {
            self.update_gasp_effect();
        } else if self.voice_type == 2 {
            self.update_grunt_effect();
        } else {
            self.voice_active = false;
        }
    }

    /// Starts a voice effect unless one is already playing: 0 is the
    /// laugh, 1 the gasp, 2 the grunt; any other kind starts nothing.
    #[verifier::rlimit(100)]
    pub fn play_voice_effect(&mut self, voice_type: u8)
        requires
            apu_wf(*old(self)),
        ensures
            apu_wf(*final(self)),
            old(self).voice_active ==> *final(self) == *old(self),
            !old(self).voice_active ==> {
                &&& final(self).voice_type == voice_type
                &&& final(self).voice_timer == 0
                &&& final(self).voice_stage == 0
                &&& final(self).voice_stage_timer == 0
                &&& final(self).voice_active == (voice_type == 0 || voice_type == 1 || voice_type
                    == 2)
                &&& if voice_type == 0 {
                    final(self).voice_oscillator == (DigitalOscillator {
                        enabled: true,
                        frequency: 1288490188800,
                        volume: 1717986918,
                        waveform: Waveform::Pulse,
                        pulse_width: 1073741824,
                        ..old(self).voice_oscillator
                    })
                } else if voice_type == 1 {
                    final(self).voice_oscillator == (DigitalOscillator {
                        enabled: true,
                        frequency: 644245094400,
                        volume: 1288490188,
                        waveform: Waveform::Sine,
                        ..old(self).voice_oscillator
                    })
                } else if voice_type == 2 {
                    final(self).voice_oscillator == (DigitalOscillator {
                        enabled: true,
                        frequency: 343597383680,
                        volume: 2147483648,
                        waveform: Waveform::Pulse,
                        pulse_width: 3221225472,
                        ..old(self).voice_oscillator
                    })
                } else {
                    final(self).voice_oscillator == old(self).voice_oscillator
                }
                &&& *final(self) == (Apu {
                    voice_active: final(self).voice_active,
                    voice_type: voice_type,
                    voice_timer: 0,
                    voice_stage: 0,
                    voice_stage_timer: 0,
                    voice_oscillator: final(self).voice_oscillator,
                    ..*old(self)
                })
            },
    {
        if self.voice_active {
            return ;
        }
        self.voice_active = true;
        self.voice_type = voice_type;
        self.voice_timer = 0;
        self.voice_stage = 0;
        self.voice_stage_timer = 0;
        proof {
            reveal(osc_wf);
        }
        if voice_type == 0 {
            self.voice_oscillator.enabled = true;
            self.voice_oscillator.frequency = 1288490188800;
            self.voice_oscillator.volume = 1717986918;
            self.voice_oscillator.waveform = Waveform::Pulse;
            self.voice_oscillator.pulse_width = 1073741824;
        } else if voice_type == 1 {
            self.voice_oscillator.enabled = true;
            self.voice_oscillator.frequency = 644245094400;
            self.voice_oscillator.volume = 1288490188;
            self.voice_oscillator.waveform = Waveform::Sine;
        } else if voice_type == 2 {
            self.voice_oscillator.enabled = true;
            self.voice_oscillator.frequency = 343597383680;
            self.voice_oscillator.volume = 2147483648;
            self.voice_oscillator.waveform = Waveform::Pulse;
            self.voice_oscillator.pulse_width = 3221225472;
        } else {
            self.voice_active = false;
        }
    }
}

} // verus!
