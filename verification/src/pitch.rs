//! Pitch arithmetic: conversion from MIDI note numbers to oscillator
//! frequencies in Q32.32 hertz.
//!
//! A note `n` plays at `440 * 2^((n - 69) / 12)` Hz. With `k = n + 51`
//! (so that `k` is nonnegative for every `u8` note) the exponent splits
//! into an octave `k / 12 - 10` and a semitone `k % 12`, and the frequency
//! becomes `440 * ratio(k % 12) * 2^(k / 12) / 2^10`, with the twelve
//! equal-temperament semitone ratios tabulated in Q32.32.

use vstd::prelude::*;

verus! {

/// Every frequency the engine produces stays below 2^57 (in Q32.32 hertz);
/// the highest MIDI note converts to about 2^56.7.
pub const FREQ_LIMIT: i64 = 0x200000000000000;

/// 2^e for a small nonnegative exponent.
pub open spec fn pow2i(e: int) -> int
    decreases e,
{
    if e <= 0 {
        1
    } else {
        2 * pow2i(e - 1)
    }
}

pub proof fn lemma_pow2i_pos(e: int)
    ensures
        pow2i(e) >= 1,
    decreases e,
{
    if e > 0 {
        lemma_pow2i_pos(e - 1);
    }
}

pub proof fn lemma_pow2i_mono(e1: int, e2: int)
    requires
        e1 <= e2,
    ensures
        pow2i(e1) <= pow2i(e2),
    decreases e2 - e1,
{
    if e1 < e2 {
        lemma_pow2i_mono(e1, e2 - 1);
        lemma_pow2i_pos(e2 - 1);
    }
}

/// The twelve equal-temperament semitone ratios `2^(r/12)` in Q32.32.
pub open spec fn semitone_ratio(r: int) -> int {
    if r == 0 {
        4294967296
    } else if r == 1 {
        4550359341
    } else if r == 2 {
        4820937788
    } else if r == 3 {
        5107605667
    } else if r == 4 {
        5411319704
    } else if r == 5 {
        5733093519
    } else if r == 6 {
        6074000999
    } else if r == 7 {
        6435179894
    } else if r == 8 {
        6817835603
    } else if r == 9 {
        7223245205
    } else if r == 10 {
        7652761716
    } else {
        8107818609
    }
}

/// The frequency of a MIDI note in Q32.32 hertz.
pub open spec fn midi_freq_spec(note: int) -> int {
    (440 * semitone_ratio((note + 51) % 12) * pow2i((note + 51) / 12)) / 1024
}

/// Looks up one semitone ratio.
fn semitone_ratio_at(r: u8) -> (v: u64)
    requires
        r < 12,
    ensures
        v == semitone_ratio(r as int),
        4294967296 <= v <= 8107818609,
{
    if r == 0 {
        4294967296
    } else if r == 1 {
        4550359341
    } else if r == 2 {
        4820937788
    } else if r == 3 {
        5107605667
    } else if r == 4 {
        5411319704
    } else if r == 5 {
        5733093519
    } else if r == 6 {
        6074000999
    } else if r == 7 {
        6435179894
    } else if r == 8 {
        6817835603
    } else if r == 9 {
        7223245205
    } else if r == 10 {
        7652761716
    } else {
        8107818609
    }
}

/// 2^e for exponents up to 25.
fn pow2_exec(e: u8) -> (v: u64)
    requires
        e <= 25,
    ensures
        v == pow2i(e as int),
        1 <= v <= 0x2000000,
{
    let mut v: u64 = 1;
    let mut i: u8 = 0;
    while i < e
        invariant
            i <= e <= 25,
            v == pow2i(i as int),
            1 <= v <= 0x2000000,
        decreases e - i,
    {
        proof {
            reveal_with_fuel(pow2i, 27);
            lemma_pow2i_mono(i as int + 1, 25);
            assert(pow2i(25) == 0x2000000);
        }
        v = v * 2;
        i = i + 1;
    }
    v
}

/// Converts a MIDI note number to its frequency in Q32.32 hertz.
pub fn midi_to_frequency(note: u8) -> (freq: i64)
    ensures
        freq == midi_freq_spec(note as int),
        0 < freq < FREQ_LIMIT,
{
    let k: u16 = note as u16 + 51;
    let q: u8 = (k / 12) as u8;
    let r: u8 = (k % 12) as u8;
    let ratio: u64 = semitone_ratio_at(r);
    let p2: u64 = pow2_exec(q);
    let base: u128 = 440u128 * (ratio as u128);
    proof {
        assert(440 * 4294967296 <= base * (p2 as int)
            <= 440 * 8107818609 * 0x2000000) by (nonlinear_arith)
            requires
                440 * 4294967296 <= base <= 440 * 8107818609,
                1 <= p2 <= 0x2000000,
        ;
    }
    let num: u128 = base * (p2 as u128);
    let freq: u128 = num / 1024;
    proof {
        vstd::arithmetic::div_mod::lemma_div_is_ordered(
            num as int,
            (440 * 8107818609 * 0x2000000) as int,
            1024,
        );
        vstd::arithmetic::div_mod::lemma_div_is_ordered(
            (440 * 4294967296) as int,
            num as int,
            1024,
        );
    }
    freq as i64
}

} // verus!
