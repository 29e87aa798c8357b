//! The audio chip itself: four voice banks (legacy 4-channel, manual test
//! oscillator, dynamic polyphonic bank, fixed 3-voice bank), the
//! time-driven sequencers that reprogram the test oscillator, a sample
//! player, and the mixer that sums the active banks under per-bank and
//! master volume — one output sample per `generate_sample` call, one
//! timer tick per `step` call.

use vstd::prelude::*;

verus! {

use crate::fx::{FX_ONE, FX_HALF, fx_mul, fx_mul_spec, lemma_fx_mul_le};
use crate::pitch::FREQ_LIMIT;
use crate::channels::{
    PulseChannel,
    TriangleChannel,
    NoiseChannel,
    pulse_wf,
    tri_wf,
    noise_wf,
    pulse_out,
    tri_out,
    noise_out,
    generate_pulse_sample,
    generate_triangle_sample,
    generate_noise_sample,
};
use crate::oscillator::{
    DigitalOscillator,
    Waveform,
    osc_wf,
    osc_out,
    osc_stepped,
    osc_new,
    generate_digital_oscillator_sample,
};
use crate::filter::{FilterKind, filter_new};
use crate::delay::delay_new;

/// One allocated voice of the polyphonic bank, keyed by its note number.
pub struct PolyVoice {
    pub note: u32,
    pub osc: DigitalOscillator,
}

/// The polyphonic bank never allocates more than this many voices at
/// once; a note-on beyond the cap is ignored, which fixed-width mixing
/// arithmetic forces.
pub const POLY_MAX_VOICES: usize = 256;

/// Timers advance by this much simulated time per `step` call: one tick
/// of `1 / (29780 * 60)` seconds, the hardware's per-cycle granularity.
pub const STEP_TICK: i64 = 2403;

/// Sequencer durations are capped at this many Q32.32 seconds (about
/// eighteen hours), which keeps every timer far from overflow.
pub const DURATION_LIMIT: i64 = 0x1000000000000;

/// The sample player refuses clips longer than this many samples, so its
/// fractional position stays inside an `i64`.
pub const SAMPLE_LEN_LIMIT: usize = 0x40000000;

/// The software audio chip.
pub struct Apu {
    // Legacy chip-tune bank.
    pub pulse1: PulseChannel,
    pub pulse2: PulseChannel,
    pub triangle: TriangleChannel,
    pub noise: NoiseChannel,
    // Manually driven oscillator for sound test and sequencers.
    pub test_osc: DigitalOscillator,
    /// Master volume in [0, 1].
    pub master_volume: i64,
    pub frame_counter: u32,
    // Sound test mode.
    pub sound_test_mode: bool,
    /// Current MIDI note of the test oscillator.
    pub current_note: u8,
    /// Current waveform selector code of the test oscillator.
    pub current_waveform: u8,
    // Melody step sequencer.
    pub melody_enabled: bool,
    pub melody_step: usize,
    /// Elapsed time inside the current melody step, Q32.32 seconds.
    pub melody_timer: i64,
    /// Steps per second in [0.5, 4].
    pub melody_tempo: i64,
    /// The fixed 16-step melody; a zero note is a rest.
    pub melody_notes: Vec<u8>,
    // Sound-effect envelope.
    pub sfx_active: bool,
    pub sfx_timer: i64,
    pub sfx_duration: i64,
    pub sfx_start_note: u8,
    pub sfx_end_note: u8,
    pub sfx_waveform: u8,
    // Voice-effect state machine.
    pub voice_active: bool,
    pub voice_type: u8,
    pub voice_timer: i64,
    pub voice_stage: u8,
    pub voice_stage_timer: i64,
    pub voice_oscillator: DigitalOscillator,
    // Polyphonic bank: note number -> voice, notes unique.
    pub synth_voices: Vec<PolyVoice>,
    pub synth_enabled: bool,
    // Filter settings broadcast to the polyphonic bank.
    pub global_filter_enabled: bool,
    pub global_filter_type: u8,
    /// Cutoff in Q32.32 hertz, kept nonnegative.
    pub global_filter_cutoff: i64,
    /// Resonance in [0, 1].
    pub global_filter_resonance: i64,
    // Fixed 3-voice bank.
    pub sid_voice1: DigitalOscillator,
    pub sid_voice2: DigitalOscillator,
    pub sid_voice3: DigitalOscillator,
    pub sid_enabled: bool,
    /// Bank volumes in [0, 1].
    pub sid_volume: i64,
    pub poly_volume: i64,
    // Sample player.
    pub sample_active: bool,
    pub sample_data: Option<Vec<u8>>,
    pub sample_data_rate: u32,
    /// Fractional playback position in Q32.32 samples.
    pub sample_position: i64,
    pub sample_volume: i64,
}

/// The fixed demo melody: a haunting D-minor line over 16 steps, with
/// zeroes marking rests.
pub open spec fn melody_note_spec(i: int) -> u8 {
    if i == 0 {
        62
    } else if i == 1 {
        65
    } else if i == 2 {
        67
    } else if i == 3 {
        62
    } else if i == 4 {
        0
    } else if i == 5 {
        65
    } else if i == 6 {
        67
    } else if i == 7 {
        70
    } else if i == 8 {
        72
    } else if i == 9 {
        70
    } else if i == 10 {
        67
    } else if i == 11 {
        65
    } else if i == 12 {
        62
    } else if i == 13 {
        0
    } else if i == 14 {
        62
    } else {
        0
    }
}

/// The polyphonic bank holds at most one voice per note.
pub open spec fn poly_notes_unique(s: Seq<PolyVoice>) -> bool {
    forall|i: int, j: int|
        0 <= i < s.len() && 0 <= j < s.len() && i != j ==> s[i].note != s[j].note
}

pub open spec fn poly_has_note(s: Seq<PolyVoice>, note: u32) -> bool {
    exists|i: int| 0 <= i < s.len() && s[i].note == note
}

pub open spec fn poly_wf(s: Seq<PolyVoice>) -> bool {
    &&& s.len() <= POLY_MAX_VOICES
    &&& poly_notes_unique(s)
    &&& forall|i: int| 0 <= i < s.len() ==> osc_wf(#[trigger] s[i].osc)
}

/// Well-formedness of the whole chip: every bank's invariant, every
/// parameter in its clamped range, every timer bounded.
pub open spec fn apu_wf(a: Apu) -> bool {
    &&& pulse_wf(a.pulse1)
    &&& pulse_wf(a.pulse2)
    &&& tri_wf(a.triangle)
    &&& noise_wf(a.noise)
    &&& osc_wf(a.test_osc)
    &&& osc_wf(a.voice_oscillator)
    &&& osc_wf(a.sid_voice1)
    &&& osc_wf(a.sid_voice2)
    &&& osc_wf(a.sid_voice3)
    &&& poly_wf(a.synth_voices@)
    &&& 0 <= a.master_volume <= FX_ONE
    &&& 0 <= a.sid_volume <= FX_ONE
    &&& 0 <= a.poly_volume <= FX_ONE
    &&& 0 <= a.sample_volume <= FX_ONE
    &&& a.melody_step < 16
    &&& 0 <= a.melody_timer <= 2 * (FX_ONE as int)
    &&& FX_HALF <= a.melody_tempo <= 4 * (FX_ONE as int)
    &&& a.melody_notes@.len() == 16
    &&& forall|i: int| 0 <= i < 16 ==> a.melody_notes@[i] == melody_note_spec(i)
    &&& 0 <= a.sfx_timer <= DURATION_LIMIT + STEP_TICK
    &&& 0 <= a.sfx_duration <= DURATION_LIMIT
    &&& (a.sfx_active ==> a.sfx_timer <= a.sfx_duration)
    &&& a.voice_active ==> {
        &&& 0 <= a.voice_stage_timer <= FX_ONE
        &&& a.voice_stage_timer <= a.voice_timer
        &&& a.voice_stage <= 6
        &&& 0 <= a.voice_timer <= (a.voice_stage as int) * (FX_ONE as int + STEP_TICK)
            + a.voice_stage_timer + FX_ONE
    }
    &&& 0 <= a.global_filter_cutoff
    &&& 0 <= a.global_filter_resonance <= FX_ONE
    &&& sample_player_wf(a)
}

/// The sample player's own invariant: position bounded, any held clip
/// within the length cap, and a playing player always holding a clip.
pub open spec fn sample_player_wf(a: Apu) -> bool {
    &&& 0 <= a.sample_position <= 0x4800000000000000
    &&& (a.sample_data matches Some(d) ==> d@.len() <= SAMPLE_LEN_LIMIT)
    &&& (a.sample_active ==> a.sample_data is Some)
    &&& 0 <= a.sample_volume <= FX_ONE
}

impl Apu {
    /// A freshly powered chip: all banks silent, the test oscillator at
    /// A4 with its classic lowpass mildly open, master volume at one
    /// half, the demo melody at a moderate three steps per second.
    pub fn new() -> (a: Apu)
        ensures
            apu_wf(a),
            !a.pulse1.enabled && !a.pulse2.enabled && !a.triangle.enabled && !a.noise.enabled,
            !a.test_osc.enabled && !a.voice_oscillator.enabled,
            !a.sid_voice1.enabled && !a.sid_voice2.enabled && !a.sid_voice3.enabled,
            a.test_osc.waveform == Waveform::Pulse,
            a.test_osc.frequency == 1889785610240,
            a.test_osc.phase == 0,
            a.test_osc.pulse_width == FX_HALF,
            a.master_volume == FX_HALF,
            a.frame_counter == 0,
            !a.sound_test_mode,
            a.current_note == 69,
            a.current_waveform == 0,
            !a.melody_enabled,
            a.melody_step == 0,
            a.melody_timer == 0,
            a.melody_tempo == 12884901888,
            !a.sfx_active,
            !a.voice_active,
            a.synth_voices@.len() == 0,
            !a.synth_enabled,
            !a.sid_enabled,
            a.sid_volume == 3435973836,
            a.poly_volume == 3435973836,
            !a.sample_active,
            a.sample_data is None,
            a.sample_position == 0,
            a.sample_volume == 3435973836,
    {
        let mut melody_notes: Vec<u8> = Vec::new();
        melody_notes.push(62);
        melody_notes.push(65);
        melody_notes.push(67);
        melody_notes.push(62);
        melody_notes.push(0);
        melody_notes.push(65);
        melody_notes.push(67);
        melody_notes.push(70);
        melody_notes.push(72);
        melody_notes.push(70);
        melody_notes.push(67);
        melody_notes.push(65);
        melody_notes.push(62);
        melody_notes.push(0);
        melody_notes.push(62);
        melody_notes.push(0);
        let test_osc = osc_new(
            false,
            1889785610240,
            Waveform::Pulse,
            FX_HALF,
            3006477107,
            0,
            filter_new(true, FilterKind::Lowpass, 3435973836, 429496729),
            delay_new(false, 1288490188, 1288490188, 1073741824),
        );
        let voice_oscillator = osc_new(
            false,
            1288490188800,
            Waveform::Pulse,
            1073741824,
            1288490188,
            0,
            filter_new(false, FilterKind::Lowpass, 2147483648, 429496729),
            delay_new(false, 0, 0, 0),
        );
        let sid_voice1 = osc_new(
            false,
            1889785610240,
            Waveform::Pulse,
            FX_HALF,
            3006477107,
            0,
            filter_new(false, FilterKind::Lowpass, 3435973836, 858993459),
            delay_new(false, 1288490188, 1717986918, 858993459),
        );
        let sid_voice2 = osc_new(
            false,
            1889785610240,
            Waveform::Sawtooth,
            FX_HALF,
            3006477107,
            0,
            filter_new(false, FilterKind::Lowpass, 3435973836, 858993459),
            delay_new(false, 1288490188, 1717986918, 858993459),
        );
        let sid_voice3 = osc_new(
            false,
            1889785610240,
            Waveform::Triangle,
            FX_HALF,
            3006477107,
            0,
            filter_new(false, FilterKind::Lowpass, 3435973836, 858993459),
            delay_new(false, 1288490188, 1717986918, 858993459),
        );
        Apu {
            pulse1: PulseChannel {
                enabled: false,
                frequency: 1889785610240,
                pulse_width: 0,
                volume: 0,
                phase: 0,
            },
            pulse2: PulseChannel {
                enabled: false,
                frequency: 1889785610240,
                pulse_width: 0,
                volume: 0,
                phase: 0,
            },
            triangle: TriangleChannel { enabled: false, frequency: 944892805120, phase: 0 },
            noise: NoiseChannel { enabled: false, volume: 0, period: 1, shift_register: 1 },
            test_osc,
            master_volume: FX_HALF,
            frame_counter: 0,
            sound_test_mode: false,
            current_note: 69,
            current_waveform: 0,
            melody_enabled: false,
            melody_step: 0,
            melody_timer: 0,
            melody_tempo: 12884901888,
            melody_notes,
            sfx_active: false,
            sfx_timer: 0,
            sfx_duration: 0,
            sfx_start_note: 60,
            sfx_end_note: 60,
            sfx_waveform: 0,
            voice_active: false,
            voice_type: 0,
            voice_timer: 0,
            voice_stage: 0,
            voice_stage_timer: 0,
            voice_oscillator,
            synth_voices: Vec::new(),
            synth_enabled: false,
            global_filter_enabled: false,
            global_filter_type: 0,
            global_filter_cutoff: 4294967296000,
            global_filter_resonance: 2147483648,
            sid_voice1,
            sid_voice2,
            sid_voice3,
            sid_enabled: false,
            sid_volume: 3435973836,
            poly_volume: 3435973836,
            sample_active: false,
            sample_data: None,
            sample_data_rate: 5512,
            sample_position: 0,
            sample_volume: 3435973836,
        }
    }
}

/// The polyphonic bank's contribution: the sum of every enabled voice's
/// next sample.
pub open spec fn poly_sum(s: Seq<PolyVoice>) -> int
    decreases s.len(),
{
    if s.len() == 0 {
        0
    } else {
        poly_sum(s.drop_last()) + (if s.last().osc.enabled {
            osc_out(s.last().osc)
        } else {
            0
        })
    }
}

proof fn lemma_poly_sum_take(s: Seq<PolyVoice>, i: int)
    requires
        0 <= i < s.len(),
    ensures
        poly_sum(s.take(i + 1)) == poly_sum(s.take(i)) + (if s[i].osc.enabled {
            osc_out(s[i].osc)
        } else {
            0
        }),
{
    assert(s.take(i + 1).drop_last() =~= s.take(i));
    assert(s.take(i + 1).last() == s[i]);
}

/// The voice-effect oscillator's contribution to one output sample.
pub open spec fn voice_part(a: Apu) -> int {
    if a.voice_active && a.voice_oscillator.enabled {
        osc_out(a.voice_oscillator)
    } else {
        0
    }
}

/// The mode-dependent main source: an active sound effect drives the
/// test oscillator; otherwise sound-test mode plays the test oscillator
/// alone; otherwise the legacy 4-channel bank is summed.
pub open spec fn main_part(a: Apu) -> int {
    if a.sfx_active && a.test_osc.enabled {
        osc_out(a.test_osc)
    } else if a.sound_test_mode {
        if a.test_osc.enabled {
            osc_out(a.test_osc)
        } else {
            0
        }
    } else {
        (if a.pulse1.enabled {
            pulse_out(a.pulse1)
        } else {
            0
        }) + (if a.pulse2.enabled {
            pulse_out(a.pulse2)
        } else {
            0
        }) + (if a.triangle.enabled {
            tri_out(a.triangle)
        } else {
            0
        }) + (if a.noise.enabled {
            noise_out(a.noise)
        } else {
            0
        })
    }
}

/// The polyphonic bank's contribution, scaled by the poly volume.
pub open spec fn poly_part(a: Apu) -> int {
    if a.synth_enabled && a.synth_voices@.len() > 0 {
        fx_mul_spec(poly_sum(a.synth_voices@), a.poly_volume as int)
    } else {
        0
    }
}

/// The fixed 3-voice bank's raw sum.
pub open spec fn sid_sum(a: Apu) -> int {
    (if a.sid_voice1.enabled {
        osc_out(a.sid_voice1)
    } else {
        0
    }) + (if a.sid_voice2.enabled {
        osc_out(a.sid_voice2)
    } else {
        0
    }) + (if a.sid_voice3.enabled {
        osc_out(a.sid_voice3)
    } else {
        0
    })
}

/// The fixed 3-voice bank's contribution, scaled by its bank volume.
pub open spec fn sid_part(a: Apu) -> int {
    if a.sid_enabled && (a.sid_voice1.enabled || a.sid_voice2.enabled || a.sid_voice3.enabled) {
        fx_mul_spec(sid_sum(a), a.sid_volume as int)
    } else {
        0
    }
}

/// The grand total of all banks before the master volume.
pub open spec fn mix_total(a: Apu) -> int {
    voice_part(a) + crate::sampler::sample_out(a) + main_part(a) + poly_part(a) + sid_part(a)
}

/// One output sample: the grand total scaled by the master volume, with
/// no final clamp — a hot mix is allowed to leave [-1, 1].
pub open spec fn mix_out(a: Apu) -> int {
    fx_mul_spec(mix_total(a), a.master_volume as int)
}

/// Steps every enabled voice of the polyphonic bank once and returns the
/// bank's raw sum.
fn poly_generate(voices: &mut Vec<PolyVoice>) -> (r: i64)
    requires
        poly_wf(old(voices)@),
    ensures
        poly_wf(final(voices)@),
        final(voices)@.len() == old(voices)@.len(),
        forall|j: int|
            0 <= j < old(voices)@.len() ==> {
                &&& (#[trigger] final(voices)@[j]).note == old(voices)@[j].note
                &&& if old(voices)@[j].osc.enabled {
                    osc_stepped(old(voices)@[j].osc, final(voices)@[j].osc)
                } else {
                    final(voices)@[j] == old(voices)@[j]
                }
            },
        r == poly_sum(old(voices)@),
        -2199023255552 <= r <= 2199023255552,
{
    let ghost orig: Seq<PolyVoice> = voices@;
    let mut total: i64 = 0;
    let mut i: usize = 0;
    while i < voices.len()
        invariant
            poly_wf(orig),
            i <= orig.len(),
            voices@.len() == orig.len(),
            forall|j: int|
                0 <= j < i ==> {
                    &&& (#[trigger] voices@[j]).note == orig[j].note
                    &&& osc_wf(voices@[j].osc)
                    &&& if orig[j].osc.enabled {
                        osc_stepped(orig[j].osc, voices@[j].osc)
                    } else {
                        voices@[j] == orig[j]
                    }
                },
            forall|j: int| i <= j < orig.len() ==> voices@[j] == orig[j],
            total == poly_sum(orig.take(i as int)),
            -8589934592 * (i as int) <= total <= 8589934592 * (i as int),
        decreases orig.len() - i,
    {
        proof {
            lemma_poly_sum_take(orig, i as int);
        }
        if voices[i].osc.enabled {
            let v: i64 = generate_digital_oscillator_sample(&mut voices[i].osc);
            total = total + v;
        }
        i = i + 1;
    }
    proof {
        assert(orig.take(orig.len() as int) =~= orig);
    }
    total
}

impl Apu {
    /// The per-call sources outside the synth banks: the voice-effect
    /// oscillator, the sample player, and the mode-dependent main slot
    /// (sound effect, sound test, or the legacy bank).
    #[verifier::rlimit(100)]
    fn mix_main_sources(&mut self) -> (r: i64)
        requires
            apu_wf(*old(self)),
        ensures
            apu_wf(*final(self)),
            r == voice_part(*old(self)) + crate::sampler::sample_out(*old(self)) + main_part(
                *old(self),
            ),
            -30064771072 <= r <= 30064771072,
            if old(self).voice_active && old(self).voice_oscillator.enabled {
                osc_stepped(old(self).voice_oscillator, final(self).voice_oscillator)
            } else {
                final(self).voice_oscillator == old(self).voice_oscillator
            },
            crate::sampler::sample_playing(*old(self)) ==> {
                &&& final(self).sample_active
                &&& final(self).sample_data == old(self).sample_data
                &&& final(self).sample_position == old(self).sample_position
                    + crate::sampler::sample_advance(old(self).sample_data_rate as int)
            },
            old(self).sample_active && old(self).sample_data is Some
                && !crate::sampler::sample_playing(*old(self)) ==> {
                &&& !final(self).sample_active
                &&& final(self).sample_data is None
                &&& final(self).sample_position == old(self).sample_position
            },
            !old(self).sample_active || old(self).sample_data is None ==> {
                &&& final(self).sample_active == old(self).sample_active
                &&& final(self).sample_data == old(self).sample_data
                &&& final(self).sample_position == old(self).sample_position
            },
            if old(self).test_osc.enabled && (old(self).sfx_active || old(self).sound_test_mode) {
                osc_stepped(old(self).test_osc, final(self).test_osc)
            } else {
                final(self).test_osc == old(self).test_osc
            },
            if !(old(self).sfx_active && old(self).test_osc.enabled)
                && !old(self).sound_test_mode {
                &&& if old(self).pulse1.enabled {
                    crate::channels::pulse_stepped(old(self).pulse1, final(self).pulse1)
                } else {
                    final(self).pulse1 == old(self).pulse1
                }
                &&& if old(self).pulse2.enabled {
                    crate::channels::pulse_stepped(old(self).pulse2, final(self).pulse2)
                } else {
                    final(self).pulse2 == old(self).pulse2
                }
                &&& if old(self).triangle.enabled {
                    crate::channels::tri_stepped(old(self).triangle, final(self).triangle)
                } else {
                    final(self).triangle == old(self).triangle
                }
                &&& if old(self).noise.enabled {
                    crate::channels::noise_stepped(old(self).noise, final(self).noise)
                } else {
                    final(self).noise == old(self).noise
                }
            } else {
                &&& final(self).pulse1 == old(self).pulse1
                &&& final(self).pulse2 == old(self).pulse2
                &&& final(self).triangle == old(self).triangle
                &&& final(self).noise == old(self).noise
            },
            *final(self) == (Apu {
                pulse1: final(self).pulse1,
                pulse2: final(self).pulse2,
                triangle: final(self).triangle,
                noise: final(self).noise,
                test_osc: final(self).test_osc,
                voice_oscillator: final(self).voice_oscillator,
                sample_active: final(self).sample_active,
                sample_data: final(self).sample_data,
                sample_position: final(self).sample_position,
                ..*old(self)
            }),
    {
        let mut sample: i64 = 0;
        // Voice effects sound first.
        if self.voice_active && self.voice_oscillator.enabled {
            let v: i64 = generate_digital_oscillator_sample(&mut self.voice_oscillator);
            sample = sample + v;
        }
        // Sample playback is always summed in.
        let clip: i64 = self.update_sample_playback();
        sample = sample + clip;
        let main: i64 = self.mix_main_slot();
        sample + main
    }

    /// The mode-dependent main slot: an active sound effect takes it;
    /// otherwise sound-test mode plays the test oscillator; otherwise the
    /// legacy bank plays.
    #[verifier::rlimit(100)]
    fn mix_main_slot(&mut self) -> (r: i64)
        requires
            apu_wf(*old(self)),
        ensures
            apu_wf(*final(self)),
            r == main_part(*old(self)),
            -17179869184 <= r <= 17179869184,
            if old(self).test_osc.enabled && (old(self).sfx_active || old(self).sound_test_mode) {
                osc_stepped(old(self).test_osc, final(self).test_osc)
            } else {
                final(self).test_osc == old(self).test_osc
            },
            if !(old(self).sfx_active && old(self).test_osc.enabled)
                && !old(self).sound_test_mode {
                &&& if old(self).pulse1.enabled {
                    crate::channels::pulse_stepped(old(self).pulse1, final(self).pulse1)
                } else {
                    final(self).pulse1 == old(self).pulse1
                }
                &&& if old(self).pulse2.enabled {
                    crate::channels::pulse_stepped(old(self).pulse2, final(self).pulse2)
                } else {
                    final(self).pulse2 == old(self).pulse2
                }
                &&& if old(self).triangle.enabled {
                    crate::channels::tri_stepped(old(self).triangle, final(self).triangle)
                } else {
                    final(self).triangle == old(self).triangle
                }
                &&& if old(self).noise.enabled {
                    crate::channels::noise_stepped(old(self).noise, final(self).noise)
                } else {
                    final(self).noise == old(self).noise
                }
            } else {
                &&& final(self).pulse1 == old(self).pulse1
                &&& final(self).pulse2 == old(self).pulse2
                &&& final(self).triangle == old(self).triangle
                &&& final(self).noise == old(self).noise
            },
            *final(self) == (Apu {
                pulse1: final(self).pulse1,
                pulse2: final(self).pulse2,
                triangle: final(self).triangle,
                noise: final(self).noise,
                test_osc: final(self).test_osc,
                ..*old(self)
            }),
    {
        let mut sample: i64 = 0;
        if self.sfx_active && self.test_osc.enabled {
            let v: i64 = generate_digital_oscillator_sample(&mut self.test_osc);
            sample = sample + v;
        } else if self.sound_test_mode {
            if self.test_osc.enabled {
                let v: i64 = generate_digital_oscillator_sample(&mut self.test_osc);
                sample = sample + v;
            }
        } else {
            if self.pulse1.enabled {
                let v: i64 = generate_pulse_sample(&mut self.pulse1);
                sample = sample + v;
            }
            if self.pulse2.enabled {
                let v: i64 = generate_pulse_sample(&mut self.pulse2);
                sample = sample + v;
            }
            if self.triangle.enabled {
                let v: i64 = generate_triangle_sample(&mut self.triangle);
                sample = sample + v;
            }
            if self.noise.enabled {
                let v: i64 = generate_noise_sample(&mut self.noise);
                sample = sample + v;
            }
        }
        sample
    }

    /// The two synth banks, each stepped and scaled by its bank volume.
    #[verifier::rlimit(100)]
    fn mix_synth_banks(&mut self) -> (r: i64)
        requires
            apu_wf(*old(self)),
        ensures
            apu_wf(*final(self)),
            r == poly_part(*old(self)) + sid_part(*old(self)),
            -2224793059328 <= r <= 2224793059328,
            final(self).synth_voices@.len() == old(self).synth_voices@.len(),
            forall|j: int|
                0 <= j < old(self).synth_voices@.len() ==> {
                    &&& (#[trigger] final(self).synth_voices@[j]).note == old(
                        self,
                    ).synth_voices@[j].note
                    &&& if old(self).synth_enabled && old(self).synth_voices@.len() > 0 && old(
                        self,
                    ).synth_voices@[j].osc.enabled {
                        osc_stepped(
                            old(self).synth_voices@[j].osc,
                            final(self).synth_voices@[j].osc,
                        )
                    } else {
                        final(self).synth_voices@[j] == old(self).synth_voices@[j]
                    }
                },
            if old(self).sid_enabled && (old(self).sid_voice1.enabled
                || old(self).sid_voice2.enabled || old(self).sid_voice3.enabled) {
                &&& if old(self).sid_voice1.enabled {
                    osc_stepped(old(self).sid_voice1, final(self).sid_voice1)
                } else {
                    final(self).sid_voice1 == old(self).sid_voice1
                }
                &&& if old(self).sid_voice2.enabled {
                    osc_stepped(old(self).sid_voice2, final(self).sid_voice2)
                } else {
                    final(self).sid_voice2 == old(self).sid_voice2
                }
                &&& if old(self).sid_voice3.enabled {
                    osc_stepped(old(self).sid_voice3, final(self).sid_voice3)
                } else {
                    final(self).sid_voice3 == old(self).sid_voice3
                }
            } else {
                &&& final(self).sid_voice1 == old(self).sid_voice1
                &&& final(self).sid_voice2 == old(self).sid_voice2
                &&& final(self).sid_voice3 == old(self).sid_voice3
            },
            *final(self) == (Apu {
                synth_voices: final(self).synth_voices,
                sid_voice1: final(self).sid_voice1,
                sid_voice2: final(self).sid_voice2,
                sid_voice3: final(self).sid_voice3,
                ..*old(self)
            }),
    {
        let mut sample: i64 = 0;
        // The polyphonic bank always sounds while notes are held.
        if self.synth_enabled && self.synth_voices.len() > 0 {
            let poly_sample: i64 = poly_generate(&mut self.synth_voices);
            proof {
                lemma_fx_mul_le(
                    poly_sample as int,
                    self.poly_volume as int,
                    2199023255552,
                    4294967296,
                    2199023255552,
                );
            }
            sample = sample + fx_mul(poly_sample, self.poly_volume);
        }
        // The fixed 3-voice bank sounds while any voice is held.
        if self.sid_enabled && (self.sid_voice1.enabled || self.sid_voice2.enabled
            || self.sid_voice3.enabled) {
            let mut sid_sample: i64 = 0;
            if self.sid_voice1.enabled {
                let v: i64 = generate_digital_oscillator_sample(&mut self.sid_voice1);
                sid_sample = sid_sample + v;
            }
            if self.sid_voice2.enabled {
                let v: i64 = generate_digital_oscillator_sample(&mut self.sid_voice2);
                sid_sample = sid_sample + v;
            }
            if self.sid_voice3.enabled {
                let v: i64 = generate_digital_oscillator_sample(&mut self.sid_voice3);
                sid_sample = sid_sample + v;
            }
            proof {
                lemma_fx_mul_le(
                    sid_sample as int,
                    self.sid_volume as int,
                    25769803776,
                    4294967296,
                    25769803776,
                );
            }
            sample = sample + fx_mul(sid_sample, self.sid_volume);
        }
        sample
    }

    /// Produces one output sample. Per call: the active voice effect and
    /// the sample player always sound; an active sound effect drives the
    /// test oscillator in place of the sound-test or legacy source; the
    /// polyphonic and fixed 3-voice banks are always summed in under
    /// their bank volumes; the grand total is scaled by the master
    /// volume and returned without any final clamp.
    #[verifier::rlimit(100)]
    pub fn generate_sample(&mut self) -> (r: i64)
        requires
            apu_wf(*old(self)),
        ensures
            apu_wf(*final(self)),
            r == mix_out(*old(self)),
            // The voice-effect oscillator steps only while it sounds.
            if old(self).voice_active && old(self).voice_oscillator.enabled {
                osc_stepped(old(self).voice_oscillator, final(self).voice_oscillator)
            } else {
                final(self).voice_oscillator == old(self).voice_oscillator
            },
            // The sample player advances, finishes, or idles.
            crate::sampler::sample_playing(*old(self)) ==> {
                &&& final(self).sample_active
                &&& final(self).sample_data == old(self).sample_data
                &&& final(self).sample_position == old(self).sample_position
                    + crate::sampler::sample_advance(old(self).sample_data_rate as int)
                &&& final(self).sample_data_rate == old(self).sample_data_rate
            },
            old(self).sample_active && old(self).sample_data is Some
                && !crate::sampler::sample_playing(*old(self)) ==> {
                &&& !final(self).sample_active
                &&& final(self).sample_data is None
                &&& final(self).sample_position == old(self).sample_position
            },
            !old(self).sample_active || old(self).sample_data is None ==> {
                &&& final(self).sample_active == old(self).sample_active
                &&& final(self).sample_data == old(self).sample_data
                &&& final(self).sample_position == old(self).sample_position
            },
            // The test oscillator steps once when a sound effect or
            // sound-test mode plays it.
            if old(self).test_osc.enabled && (old(self).sfx_active || old(self).sound_test_mode) {
                osc_stepped(old(self).test_osc, final(self).test_osc)
            } else {
                final(self).test_osc == old(self).test_osc
            },
            // The legacy bank steps only in normal game mode.
            if !(old(self).sfx_active && old(self).test_osc.enabled)
                && !old(self).sound_test_mode {
                &&& if old(self).pulse1.enabled {
                    crate::channels::pulse_stepped(old(self).pulse1, final(self).pulse1)
                } else {
                    final(self).pulse1 == old(self).pulse1
                }
                &&& if old(self).pulse2.enabled {
                    crate::channels::pulse_stepped(old(self).pulse2, final(self).pulse2)
                } else {
                    final(self).pulse2 == old(self).pulse2
                }
                &&& if old(self).triangle.enabled {
                    crate::channels::tri_stepped(old(self).triangle, final(self).triangle)
                } else {
                    final(self).triangle == old(self).triangle
                }
                &&& if old(self).noise.enabled {
                    crate::channels::noise_stepped(old(self).noise, final(self).noise)
                } else {
                    final(self).noise == old(self).noise
                }
            } else {
                &&& final(self).pulse1 == old(self).pulse1
                &&& final(self).pulse2 == old(self).pulse2
                &&& final(self).triangle == old(self).triangle
                &&& final(self).noise == old(self).noise
            },
            // The polyphonic bank steps only while the synth is on.
            final(self).synth_voices@.len() == old(self).synth_voices@.len(),
            forall|j: int|
                0 <= j < old(self).synth_voices@.len() ==> {
                    &&& (#[trigger] final(self).synth_voices@[j]).note == old(self).synth_voices@[j].note
                    &&& if old(self).synth_enabled && old(self).synth_voices@.len() > 0 && old(self).synth_voices@[j].osc.enabled {
                        osc_stepped(
                            old(self).synth_voices@[j].osc,
                            final(self).synth_voices@[j].osc,
                        )
                    } else {
                        final(self).synth_voices@[j] == old(self).synth_voices@[j]
                    }
                },
            // The fixed 3-voice bank steps only while it sounds.
            if old(self).sid_enabled && (old(self).sid_voice1.enabled || old(self).sid_voice2.enabled || old(self).sid_voice3.enabled) {
                &&& if old(self).sid_voice1.enabled {
                    osc_stepped(old(self).sid_voice1, final(self).sid_voice1)
                } else {
                    final(self).sid_voice1 == old(self).sid_voice1
                }
                &&& if old(self).sid_voice2.enabled {
                    osc_stepped(old(self).sid_voice2, final(self).sid_voice2)
                } else {
                    final(self).sid_voice2 == old(self).sid_voice2
                }
                &&& if old(self).sid_voice3.enabled {
                    osc_stepped(old(self).sid_voice3, final(self).sid_voice3)
                } else {
                    final(self).sid_voice3 == old(self).sid_voice3
                }
            } else {
                &&& final(self).sid_voice1 == old(self).sid_voice1
                &&& final(self).sid_voice2 == old(self).sid_voice2
                &&& final(self).sid_voice3 == old(self).sid_voice3
            },
            // Mixing reads the control surface without moving it.
            final(self).master_volume == old(self).master_volume,
            final(self).frame_counter == old(self).frame_counter,
            final(self).sound_test_mode == old(self).sound_test_mode,
            final(self).current_note == old(self).current_note,
            final(self).current_waveform == old(self).current_waveform,
            final(self).melody_enabled == old(self).melody_enabled,
            final(self).melody_step == old(self).melody_step,
            final(self).melody_timer == old(self).melody_timer,
            final(self).melody_tempo == old(self).melody_tempo,
            final(self).melody_notes == old(self).melody_notes,
            final(self).sfx_active == old(self).sfx_active,
            final(self).sfx_timer == old(self).sfx_timer,
            final(self).sfx_duration == old(self).sfx_duration,
            final(self).sfx_start_note == old(self).sfx_start_note,
            final(self).sfx_end_note == old(self).sfx_end_note,
            final(self).sfx_waveform == old(self).sfx_waveform,
            final(self).voice_active == old(self).voice_active,
            final(self).voice_type == old(self).voice_type,
            final(self).voice_timer == old(self).voice_timer,
            final(self).voice_stage == old(self).voice_stage,
            final(self).voice_stage_timer == old(self).voice_stage_timer,
            final(self).synth_enabled == old(self).synth_enabled,
            final(self).global_filter_enabled == old(self).global_filter_enabled,
            final(self).global_filter_type == old(self).global_filter_type,
            final(self).global_filter_cutoff == old(self).global_filter_cutoff,
            final(self).global_filter_resonance == old(self).global_filter_resonance,
            final(self).sid_enabled == old(self).sid_enabled,
            final(self).sid_volume == old(self).sid_volume,
            final(self).poly_volume == old(self).poly_volume,
            final(self).sample_volume == old(self).sample_volume,
            final(self).sample_data_rate == old(self).sample_data_rate,
    {
        let a: i64 = self.mix_main_sources();
        let b: i64 = self.mix_synth_banks();
        proof {
            lemma_fx_mul_le(
                a as int + b as int,
                self.master_volume as int,
                2254857830400,
                4294967296,
                2254857830400,
            );
        }
        fx_mul(a + b, self.master_volume)
    }
}

} // verus!
