//! The polyphonic bank: a dynamic mapping from note number to voice.
//! A note-on allocates a fresh voice seeded from the bank's global
//! filter settings; a note-off frees it; the bank counts as enabled
//! exactly while it holds voices. Filter settings broadcast to every
//! live voice and rederive each voice's coefficients at once.

use vstd::prelude::*;

verus! {

use crate::fx::{FX_ONE, fx_clamp, clamp_spec};
use crate::pitch::{midi_to_frequency, midi_freq_spec};
use crate::oscillator::{DigitalOscillator, Waveform, osc_wf, osc_new};
use crate::filter::{
    ResonantFilter,
    FilterKind,
    filter_wf,
    filter_new,
    filter_kind_of_code,
    filter_kind_from_code,
    filter_with_params,
    normalized_cutoff,
    normalized_cutoff_spec,
    coef_a0,
    coef_a1,
    coef_a2,
    coef_b1,
    coef_b2,
    update_filter_coefficients,
};
use crate::delay::delay_new;
use crate::apu::{Apu, apu_wf, PolyVoice, poly_wf, poly_has_note, POLY_MAX_VOICES};

/// Whether a note number appears among the first `upto` entries of a
/// chord.
pub open spec fn note_in_prefix(note: u32, notes: Seq<u8>, upto: int) -> bool {
    exists|m: int| 0 <= m < upto && notes[m] as u32 == note
}

/// Finds whether the bank already holds a voice for this note.
fn poly_contains(voices: &Vec<PolyVoice>, note: u32) -> (r: bool)
    ensures
        r == poly_has_note(voices@, note),
{
    let mut i: usize = 0;
    while i < voices.len()
        invariant
            i <= voices@.len(),
            forall|j: int| 0 <= j < i ==> (#[trigger] voices@[j]).note != note,
        decreases voices@.len() - i,
    {
        if voices[i].note == note {
            return true;
        }
        i = i + 1;
    }
    false
}

/// Finds the index of the voice holding this note.
fn poly_find(voices: &Vec<PolyVoice>, note: u32) -> (r: Option<usize>)
    ensures
        match r {
            Some(i) => i < voices@.len() && voices@[i as int].note == note,
            None => !poly_has_note(voices@, note),
        },
{
    let mut i: usize = 0;
    while i < voices.len()
        invariant
            i <= voices@.len(),
            forall|j: int| 0 <= j < i ==> (#[trigger] voices@[j]).note != note,
        decreases voices@.len() - i,
    {
        if voices[i].note == note {
            return Some(i);
        }
        i = i + 1;
    }
    None
}

/// Switches the filter stage of every live voice on or off.
fn poly_broadcast_filter_enabled(voices: &mut Vec<PolyVoice>, enabled: bool)
    requires
        poly_wf(old(voices)@),
    ensures
        poly_wf(final(voices)@),
        final(voices)@.len() == old(voices)@.len(),
        forall|j: int|
            0 <= j < old(voices)@.len() ==> (#[trigger] final(voices)@[j]).note == old(
                voices,
            )@[j].note && final(voices)@[j].osc == (DigitalOscillator {
                filter: (ResonantFilter { enabled: enabled, ..old(voices)@[j].osc.filter }),
                ..old(voices)@[j].osc
            }),
{
    let ghost orig: Seq<PolyVoice> = voices@;
    let mut i: usize = 0;
    while i < voices.len()
        invariant
            poly_wf(orig),
            i <= orig.len(),
            voices@.len() == orig.len(),
            forall|j: int|
                0 <= j < i ==> (#[trigger] voices@[j]).note == orig[j].note && osc_wf(
                    voices@[j].osc,
                ) && voices@[j].osc == (DigitalOscillator {
                    filter: (ResonantFilter { enabled: enabled, ..orig[j].osc.filter }),
                    ..orig[j].osc
                }),
            forall|j: int| i <= j < orig.len() ==> voices@[j] == orig[j],
        decreases orig.len() - i,
    {
        proof {
            reveal(osc_wf);
            reveal(filter_wf);
        }
        voices[i].osc.filter.enabled = enabled;
        i = i + 1;
    }
}

/// Sets the filter kind of every live voice and rederives its
/// coefficients.
fn poly_broadcast_filter_kind(voices: &mut Vec<PolyVoice>, kind: FilterKind)
    requires
        poly_wf(old(voices)@),
    ensures
        poly_wf(final(voices)@),
        final(voices)@.len() == old(voices)@.len(),
        forall|j: int|
            0 <= j < old(voices)@.len() ==> (#[trigger] final(voices)@[j]).note == old(
                voices,
            )@[j].note && final(voices)@[j].osc == (DigitalOscillator {
                filter: filter_with_params(
                    old(voices)@[j].osc.filter,
                    kind,
                    old(voices)@[j].osc.filter.cutoff as int,
                    old(voices)@[j].osc.filter.resonance as int,
                ),
                ..old(voices)@[j].osc
            }),
{
    let ghost orig: Seq<PolyVoice> = voices@;
    let mut i: usize = 0;
    while i < voices.len()
        invariant
            poly_wf(orig),
            i <= orig.len(),
            voices@.len() == orig.len(),
            forall|j: int|
                0 <= j < i ==> (#[trigger] voices@[j]).note == orig[j].note && osc_wf(
                    voices@[j].osc,
                ) && voices@[j].osc == (DigitalOscillator {
                    filter: filter_with_params(
                        orig[j].osc.filter,
                        kind,
                        orig[j].osc.filter.cutoff as int,
                        orig[j].osc.filter.resonance as int,
                    ),
                    ..orig[j].osc
                }),
            forall|j: int| i <= j < orig.len() ==> voices@[j] == orig[j],
        decreases orig.len() - i,
    {
        proof {
            reveal(osc_wf);
            reveal(filter_wf);
        }
        voices[i].osc.filter.kind = kind;
        update_filter_coefficients(&mut voices[i].osc.filter);
        i = i + 1;
    }
}

/// Sets the normalized cutoff of every live voice and rederives its
/// coefficients.
fn poly_broadcast_filter_cutoff(voices: &mut Vec<PolyVoice>, cutoff: i64)
    requires
        poly_wf(old(voices)@),
        0 <= cutoff <= FX_ONE,
    ensures
        poly_wf(final(voices)@),
        final(voices)@.len() == old(voices)@.len(),
        forall|j: int|
            0 <= j < old(voices)@.len() ==> (#[trigger] final(voices)@[j]).note == old(
                voices,
            )@[j].note && final(voices)@[j].osc == (DigitalOscillator {
                filter: filter_with_params(
                    old(voices)@[j].osc.filter,
                    old(voices)@[j].osc.filter.kind,
                    cutoff as int,
                    old(voices)@[j].osc.filter.resonance as int,
                ),
                ..old(voices)@[j].osc
            }),
{
    let ghost orig: Seq<PolyVoice> = voices@;
    let mut i: usize = 0;
    while i < voices.len()
        invariant
            poly_wf(orig),
            0 <= cutoff <= FX_ONE,
            i <= orig.len(),
            voices@.len() == orig.len(),
            forall|j: int|
                0 <= j < i ==> (#[trigger] voices@[j]).note == orig[j].note && osc_wf(
                    voices@[j].osc,
                ) && voices@[j].osc == (DigitalOscillator {
                    filter: filter_with_params(
                        orig[j].osc.filter,
                        orig[j].osc.filter.kind,
                        cutoff as int,
                        orig[j].osc.filter.resonance as int,
                    ),
                    ..orig[j].osc
                }),
            forall|j: int| i <= j < orig.len() ==> voices@[j] == orig[j],
        decreases orig.len() - i,
    {
        proof {
            reveal(osc_wf);
            reveal(filter_wf);
        }
        voices[i].osc.filter.cutoff = cutoff;
        update_filter_coefficients(&mut voices[i].osc.filter);
        i = i + 1;
    }
}

/// Sets the resonance of every live voice and rederives its
/// coefficients.
fn poly_broadcast_filter_resonance(voices: &mut Vec<PolyVoice>, resonance: i64)
    requires
        poly_wf(old(voices)@),
        0 <= resonance <= 10 * (FX_ONE as int),
    ensures
        poly_wf(final(voices)@),
        final(voices)@.len() == old(voices)@.len(),
        forall|j: int|
            0 <= j < old(voices)@.len() ==> (#[trigger] final(voices)@[j]).note == old(
                voices,
            )@[j].note && final(voices)@[j].osc == (DigitalOscillator {
                filter: filter_with_params(
                    old(voices)@[j].osc.filter,
                    old(voices)@[j].osc.filter.kind,
                    old(voices)@[j].osc.filter.cutoff as int,
                    resonance as int,
                ),
                ..old(voices)@[j].osc
            }),
{
    let ghost orig: Seq<PolyVoice> = voices@;
    let mut i: usize = 0;
    while i < voices.len()
        invariant
            poly_wf(orig),
            0 <= resonance <= 10 * (FX_ONE as int),
            i <= orig.len(),
            voices@.len() == orig.len(),
            forall|j: int|
                0 <= j < i ==> (#[trigger] voices@[j]).note == orig[j].note && osc_wf(
                    voices@[j].osc,
                ) && voices@[j].osc == (DigitalOscillator {
                    filter: filter_with_params(
                        orig[j].osc.filter,
                        orig[j].osc.filter.kind,
                        orig[j].osc.filter.cutoff as int,
                        resonance as int,
                    ),
                    ..orig[j].osc
                }),
            forall|j: int| i <= j < orig.len() ==> voices@[j] == orig[j],
        decreases orig.len() - i,
    {
        proof {
            reveal(osc_wf);
            reveal(filter_wf);
        }
        voices[i].osc.filter.resonance = resonance;
        update_filter_coefficients(&mut voices[i].osc.filter);
        i = i + 1;
    }
}

impl Apu {
    /// Starts a note: if the bank holds no voice for it and has room, a
    /// fresh voice is allocated at the note's frequency, seeded from the
    /// bank's global filter settings with its coefficients derived at
    /// once; a held note is left exactly as it sounds. The bank counts
    /// as enabled afterwards either way.
    pub fn synth_note_on(&mut self, note: u32)
        requires
            apu_wf(*old(self)),
        ensures
            apu_wf(*final(self)),
            final(self).synth_enabled,
            poly_has_note(old(self).synth_voices@, note) || old(self).synth_voices@.len()
                >= POLY_MAX_VOICES ==> final(self).synth_voices == old(self).synth_voices,
            !poly_has_note(old(self).synth_voices@, note) && old(self).synth_voices@.len()
                < POLY_MAX_VOICES ==> {
                &&& final(self).synth_voices@.len() == old(self).synth_voices@.len() + 1
                &&& forall|j: int|
                    0 <= j < old(self).synth_voices@.len() ==> final(self).synth_voices@[j] == old(self).synth_voices@[j]
                &&& final(self).synth_voices@.last().note == note
                &&& final(self).synth_voices@.last().osc.enabled
                &&& final(self).synth_voices@.last().osc.frequency == midi_freq_spec(
                    (note as int) % 256,
                )
                &&& final(self).synth_voices@.last().osc.waveform == Waveform::Pulse
                &&& final(self).synth_voices@.last().osc.phase == 0
                &&& final(self).synth_voices@.last().osc.volume == 1288490188
                &&& final(self).synth_voices@.last().osc.filter.enabled == old(self).global_filter_enabled
                &&& final(self).synth_voices@.last().osc.filter == filter_with_params(
                    final(self).synth_voices@.last().osc.filter,
                    filter_kind_of_code(old(self).global_filter_type as int),
                    normalized_cutoff_spec(old(self).global_filter_cutoff as int),
                    old(self).global_filter_resonance as int,
                )
                &&& final(self).synth_voices@.last().osc.filter.x1 == 0
                &&& final(self).synth_voices@.last().osc.filter.x2 == 0
                &&& final(self).synth_voices@.last().osc.filter.y1 == 0
                &&& final(self).synth_voices@.last().osc.filter.y2 == 0
            },
            poly_has_note(final(self).synth_voices@, note) <==> (poly_has_note(
                old(self).synth_voices@,
                note,
            ) || old(self).synth_voices@.len() < POLY_MAX_VOICES),
            *final(self) == (Apu {
                synth_voices: final(self).synth_voices,
                synth_enabled: true,
                ..*old(self)
            }),
    {
        let held: bool = poly_contains(&self.synth_voices, note);
        if !held && self.synth_voices.len() < 256 {
            let key: u8 = (note % 256) as u8;
            let filter = filter_new(
                self.global_filter_enabled,
                filter_kind_from_code(self.global_filter_type),
                normalized_cutoff(self.global_filter_cutoff),
                self.global_filter_resonance,
            );
            let delay = delay_new(false, 1288490188, 1717986918, 858993459);
            let mut osc = osc_new(
                true,
                midi_to_frequency(key),
                Waveform::Pulse,
                2147483648,
                1288490188,
                0,
                filter,
                delay,
            );
            update_filter_coefficients(&mut osc.filter);
            proof {
                reveal(osc_wf);
            }
            self.synth_voices.push(PolyVoice { note, osc });
        }
        self.synth_enabled = true;
    }

    /// Stops a note: the voice holding it, if any, leaves the bank, and
    /// an emptied bank counts as disabled.
    pub fn synth_note_off(&mut self, note: u32)
        requires
            apu_wf(*old(self)),
        ensures
            apu_wf(*final(self)),
            !poly_has_note(final(self).synth_voices@, note),
            !poly_has_note(old(self).synth_voices@, note) ==> final(self).synth_voices@ == old(self).synth_voices@,
            poly_has_note(old(self).synth_voices@, note) ==> {
                &&& final(self).synth_voices@.len() == old(self).synth_voices@.len() - 1
                &&& exists|i: int|
                    0 <= i < old(self).synth_voices@.len() && old(self).synth_voices@[i].note
                        == note && final(self).synth_voices@ == old(self).synth_voices@.remove(i)
            },
            final(self).synth_enabled == (final(self).synth_voices@.len() > 0 && old(self).synth_enabled),
            *final(self) == (Apu {
                synth_voices: final(self).synth_voices,
                synth_enabled: final(self).synth_enabled,
                ..*old(self)
            }),
    {
        let found: Option<usize> = poly_find(&self.synth_voices, note);
        match found {
            Some(i) => {
                let ghost orig: Seq<PolyVoice> = self.synth_voices@;
                self.synth_voices.remove(i);
                proof {
                    assert forall|j: int|
                        0 <= j < self.synth_voices@.len() implies (#[trigger] self.synth_voices@[j])
                        == (if j < i {
                        orig[j]
                    } else {
                        orig[j + 1]
                    }) by {}
                    assert forall|j: int|
                        0 <= j < self.synth_voices@.len() implies (#[trigger] self.synth_voices@[j]).note
                        != note by {}
                }
            },
            None => {},
        }
        if self.synth_voices.len() == 0 {
            self.synth_enabled = false;
        }
    }

    /// Forcing the bank off clears every voice; forcing it on only sets
    /// the flag.
    pub fn set_synth_enabled(&mut self, enabled: bool)
        requires
            apu_wf(*old(self)),
        ensures
            apu_wf(*final(self)),
            final(self).synth_enabled == enabled,
            !enabled ==> final(self).synth_voices@.len() == 0,
            enabled ==> final(self).synth_voices == old(self).synth_voices,
            *final(self) == (Apu {
                synth_voices: final(self).synth_voices,
                synth_enabled: enabled,
                ..*old(self)
            }),
    {
        self.synth_enabled = enabled;
        if !enabled {
            self.synth_voices.clear();
        }
    }

    /// How many notes the bank currently holds.
    pub fn get_synth_active_note_count(&self) -> (r: usize)
        ensures
            r == self.synth_voices@.len(),
    {
        self.synth_voices.len()
    }

    /// Switches the broadcast filter on or off, for future voices and
    /// every live one; nothing else of any voice moves.
    pub fn set_filter_enabled(&mut self, enabled: bool)
        requires
            apu_wf(*old(self)),
        ensures
            apu_wf(*final(self)),
            final(self).global_filter_enabled == enabled,
            final(self).synth_voices@.len() == old(self).synth_voices@.len(),
            forall|j: int|
                0 <= j < old(self).synth_voices@.len() ==> (#[trigger] final(self).synth_voices@[j]).note
                    == old(self).synth_voices@[j].note && final(self).synth_voices@[j].osc == (
                DigitalOscillator {
                    filter: (ResonantFilter {
                        enabled: enabled,
                        ..old(self).synth_voices@[j].osc.filter
                    }),
                    ..old(self).synth_voices@[j].osc
                }),
            *final(self) == (Apu {
                synth_voices: final(self).synth_voices,
                global_filter_enabled: enabled,
                ..*old(self)
            }),
    {
        self.global_filter_enabled = enabled;
        poly_broadcast_filter_enabled(&mut self.synth_voices, enabled);
    }

    /// Selects the broadcast filter response, for future voices and
    /// every live one, rederiving each voice's coefficients; nothing
    /// else of any voice moves.
    pub fn set_filter_type(&mut self, filter_type: u8)
        requires
            apu_wf(*old(self)),
        ensures
            apu_wf(*final(self)),
            final(self).global_filter_type == filter_type,
            final(self).synth_voices@.len() == old(self).synth_voices@.len(),
            forall|j: int|
                0 <= j < old(self).synth_voices@.len() ==> (#[trigger] final(self).synth_voices@[j]).note
                    == old(self).synth_voices@[j].note && final(self).synth_voices@[j].osc == (
                DigitalOscillator {
                    filter: filter_with_params(
                        old(self).synth_voices@[j].osc.filter,
                        filter_kind_of_code(filter_type as int),
                        old(self).synth_voices@[j].osc.filter.cutoff as int,
                        old(self).synth_voices@[j].osc.filter.resonance as int,
                    ),
                    ..old(self).synth_voices@[j].osc
                }),
            *final(self) == (Apu {
                synth_voices: final(self).synth_voices,
                global_filter_type: filter_type,
                ..*old(self)
            }),
    {
        self.global_filter_type = filter_type;
        poly_broadcast_filter_kind(&mut self.synth_voices, filter_kind_from_code(filter_type));
    }

    /// Sets the broadcast cutoff in Q32.32 hertz (kept nonnegative);
    /// every live voice takes the normalized value with fresh
    /// coefficients, and nothing else of any voice moves.
    pub fn set_filter_cutoff(&mut self, cutoff: i64)
        requires
            apu_wf(*old(self)),
        ensures
            apu_wf(*final(self)),
            final(self).global_filter_cutoff == (if cutoff < 0 {
                0
            } else {
                cutoff as int
            }),
            final(self).synth_voices@.len() == old(self).synth_voices@.len(),
            forall|j: int|
                0 <= j < old(self).synth_voices@.len() ==> (#[trigger] final(self).synth_voices@[j]).note
                    == old(self).synth_voices@[j].note && final(self).synth_voices@[j].osc == (
                DigitalOscillator {
                    filter: filter_with_params(
                        old(self).synth_voices@[j].osc.filter,
                        old(self).synth_voices@[j].osc.filter.kind,
                        normalized_cutoff_spec(final(self).global_filter_cutoff as int),
                        old(self).synth_voices@[j].osc.filter.resonance as int,
                    ),
                    ..old(self).synth_voices@[j].osc
                }),
            *final(self) == (Apu {
                synth_voices: final(self).synth_voices,
                global_filter_cutoff: final(self).global_filter_cutoff,
                ..*old(self)
            }),
    {
        self.global_filter_cutoff = if cutoff < 0 {
            0
        } else {
            cutoff
        };
        let normalized: i64 = normalized_cutoff(self.global_filter_cutoff);
        poly_broadcast_filter_cutoff(&mut self.synth_voices, normalized);
    }

    /// Sets the broadcast resonance, clamped into [0, 1] on this control
    /// path; every live voice takes it with fresh coefficients, and
    /// nothing else of any voice moves.
    pub fn set_filter_resonance(&mut self, resonance: i64)
        requires
            apu_wf(*old(self)),
        ensures
            apu_wf(*final(self)),
            final(self).global_filter_resonance == clamp_spec(resonance as int, 0, FX_ONE as int),
            final(self).synth_voices@.len() == old(self).synth_voices@.len(),
            forall|j: int|
                0 <= j < old(self).synth_voices@.len() ==> (#[trigger] final(self).synth_voices@[j]).note
                    == old(self).synth_voices@[j].note && final(self).synth_voices@[j].osc == (
                DigitalOscillator {
                    filter: filter_with_params(
                        old(self).synth_voices@[j].osc.filter,
                        old(self).synth_voices@[j].osc.filter.kind,
                        old(self).synth_voices@[j].osc.filter.cutoff as int,
                        final(self).global_filter_resonance as int,
                    ),
                    ..old(self).synth_voices@[j].osc
                }),
            *final(self) == (Apu {
                synth_voices: final(self).synth_voices,
                global_filter_resonance: final(self).global_filter_resonance,
                ..*old(self)
            }),
    {
        self.global_filter_resonance = fx_clamp(resonance, 0, FX_ONE);
        poly_broadcast_filter_resonance(&mut self.synth_voices, self.global_filter_resonance);
    }

    /// Replaces everything the bank plays with one chord: every note of
    /// the chord sounds, and every voice left in the bank came from the
    /// chord — nothing held before survives the clear.
    pub fn poly_play_chord(&mut self, notes: Vec<u8>)
        requires
            apu_wf(*old(self)),
        ensures
            apu_wf(*final(self)),
            final(self).synth_voices@.len() <= notes@.len(),
            forall|k: int|
                0 <= k < notes@.len() && k < POLY_MAX_VOICES ==> poly_has_note(
                    final(self).synth_voices@,
                    notes@[k] as u32,
                ),
            forall|j: int|
                0 <= j < final(self).synth_voices@.len() ==> note_in_prefix(
                    (#[trigger] final(self).synth_voices@[j]).note,
                    notes@,
                    notes@.len() as int,
                ),
            notes@.len() > 0 ==> final(self).synth_enabled,
            notes@.len() == 0 ==> final(self).synth_voices@.len() == 0 && final(self).synth_enabled == old(self).synth_enabled,
    {
        self.synth_voices.clear();
        let mut k: usize = 0;
        while k < notes.len()
            invariant
                apu_wf(*self),
                k <= notes@.len(),
                self.synth_voices@.len() <= k,
                forall|m: int|
                    0 <= m < k && m < POLY_MAX_VOICES ==> poly_has_note(
                        self.synth_voices@,
                        notes@[m] as u32,
                    ),
                forall|j: int|
                    0 <= j < self.synth_voices@.len() ==> note_in_prefix(
                        (#[trigger] self.synth_voices@[j]).note,
                        notes@,
                        k as int,
                    ),
                k > 0 ==> self.synth_enabled,
                k == 0 ==> self.synth_voices@.len() == 0 && self.synth_enabled == old(self).synth_enabled,
                *self == (Apu {
                    synth_voices: self.synth_voices,
                    synth_enabled: self.synth_enabled,
                    ..*old(self)
                }),
            decreases notes@.len() - k,
        {
            let ghost prev: Seq<PolyVoice> = self.synth_voices@;
            self.synth_note_on(notes[k] as u32);
            proof {
                assert forall|m: int| 0 <= m <= k && m < POLY_MAX_VOICES implies poly_has_note(
                    self.synth_voices@,
                    notes@[m] as u32,
                ) by {
                    if m < k {
                        let i = choose|i: int|
                            0 <= i < prev.len() && prev[i].note == notes@[m] as u32;
                        assert(self.synth_voices@[i].note == notes@[m] as u32);
                    }
                }
                assert forall|j: int| 0 <= j < self.synth_voices@.len() implies note_in_prefix(
                    (#[trigger] self.synth_voices@[j]).note,
                    notes@,
                    k + 1,
                ) by {
                    if j < prev.len() {
                        let m = choose|m: int|
                            0 <= m < k && notes@[m] as u32 == prev[j].note;
                        assert(notes@[m] as u32 == self.synth_voices@[j].note);
                    } else {
                        assert(notes@[k as int] as u32 == self.synth_voices@[j].note);
                    }
                }
            }
            k = k + 1;
        }
        proof {
            assert forall|j: int| 0 <= j < self.synth_voices@.len() implies note_in_prefix(
                (#[trigger] self.synth_voices@[j]).note,
                notes@,
                notes@.len() as int,
            ) by {
                if notes@.len() > 0 {
                    let m = choose|m: int|
                        0 <= m < notes@.len() && notes@[m] as u32 == self.synth_voices@[j].note;
                }
            }
        }
    }

    /// Starts one note on the bank.
    pub fn poly_play_note(&mut self, note: u8)
        requires
            apu_wf(*old(self)),
        ensures
            apu_wf(*final(self)),
            final(self).synth_enabled,
            poly_has_note(final(self).synth_voices@, note as u32) <==> (poly_has_note(
                old(self).synth_voices@,
                note as u32,
            ) || old(self).synth_voices@.len() < POLY_MAX_VOICES),
    {
        self.synth_note_on(note as u32);
    }

    /// Stops one note on the bank.
    pub fn poly_stop_note(&mut self, note: u8)
        requires
            apu_wf(*old(self)),
        ensures
            apu_wf(*final(self)),
            !poly_has_note(final(self).synth_voices@, note as u32),
    {
        self.synth_note_off(note as u32);
    }

    /// Silences and empties the bank.
    pub fn poly_stop_all(&mut self)
        requires
            apu_wf(*old(self)),
        ensures
            apu_wf(*final(self)),
            final(self).synth_voices@.len() == 0,
            !final(self).synth_enabled,
            *final(self) == (Apu {
                synth_voices: final(self).synth_voices,
                synth_enabled: false,
                ..*old(self)
            }),
    {
        self.synth_voices.clear();
        self.synth_enabled = false;
    }
}

} // verus!
