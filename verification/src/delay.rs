//! The feedback delay: a one-second circular buffer tapped `delay_time`
//! behind the write cursor, with the tap low-pass filtered and fed back at
//! a gain capped below unity, then mixed dry/wet into the output.
//!
//! The feedback tap runs through a fixed one-pole low-pass (coefficient
//! 0.8) before it is scaled and written back; that filtering, in this
//! order, is what keeps repeats from ringing harshly even near the cap.

use vstd::prelude::*;

verus! {

use crate::fx::{
    FX_ONE,
    fx_mul,
    fx_clamp,
    fx_mul_spec,
    clamp_spec,
    lemma_fx_mul_le,
};

/// The circular buffer holds one second of audio at the engine rate.
pub const DELAY_BUFFER_SIZE: usize = 44100;

/// The one-pole low-pass coefficient 0.8 on the feedback tap.
pub const FEEDBACK_LP: i64 = 3435973836;

/// Its complement `1 - 0.8`.
pub const FEEDBACK_LP_REST: i64 = 858993460;

/// The hard cap on the feedback gain, 0.95.
pub const FEEDBACK_MAX: i64 = 4080218931;

/// Everything in the delay's signal loop stays below 45 in magnitude:
/// each stored sample is one input (at most 2) plus a fed-back tap (at
/// most 0.95 of the low-passed history).
pub const DELAY_SIGNAL_BOUND: i64 = 193273528320;

pub struct DigitalDelay {
    pub enabled: bool,
    /// Delay time in [0, 1], mapping to 0 - 1000 ms.
    pub delay_time: i64,
    /// Feedback gain in [0, 0.95].
    pub feedback: i64,
    /// Dry/wet mix in [0, 1].
    pub mix: i64,
    pub buffer: Vec<i64>,
    pub write_pos: usize,
    pub read_pos: usize,
    /// One-pole low-pass state on the feedback path.
    pub feedback_filter: i64,
}

/// The delay time converted to whole samples, kept inside the buffer.
pub open spec fn delay_samples_spec(delay_time: int) -> int {
    clamp_spec(
        (delay_time * (DELAY_BUFFER_SIZE as int)) / (FX_ONE as int),
        1,
        DELAY_BUFFER_SIZE as int - 1,
    )
}

/// The read cursor: `delay_samples` behind the write cursor, wrapped.
pub open spec fn read_pos_spec(write_pos: int, delay_samples: int) -> int {
    if write_pos >= delay_samples {
        write_pos - delay_samples
    } else {
        DELAY_BUFFER_SIZE as int - (delay_samples - write_pos)
    }
}

/// Where this call reads its delayed sample.
pub open spec fn delay_read_index(d: DigitalDelay) -> int {
    read_pos_spec(d.write_pos as int, delay_samples_spec(d.delay_time as int))
}

/// The delayed sample this call taps.
pub open spec fn delay_tap(d: DigitalDelay) -> int {
    d.buffer[delay_read_index(d)] as int
}

/// The one-pole low-pass state after absorbing the tap.
pub open spec fn delay_ff_next(d: DigitalDelay) -> int {
    fx_mul_spec(FEEDBACK_LP as int, delay_tap(d)) + fx_mul_spec(
        FEEDBACK_LP_REST as int,
        d.feedback_filter as int,
    )
}

/// The sample written over the oldest buffer slot: the input plus the
/// filtered tap scaled by the feedback gain.
pub open spec fn delay_written(d: DigitalDelay, input: int) -> int {
    input + fx_mul_spec(delay_ff_next(d), d.feedback as int)
}

/// The mixed output: dry and tap weighted by the mix, clamped to
/// [-1.5, 1.5].
pub open spec fn delay_out_spec(d: DigitalDelay, input: int) -> int {
    clamp_spec(
        fx_mul_spec(input, FX_ONE as int - d.mix as int) + fx_mul_spec(delay_tap(d), d.mix as int),
        -6442450944,
        6442450944,
    )
}

/// Well-formedness: parameters in range, cursors inside the buffer, and
/// the whole signal loop bounded.
#[verifier::opaque]
pub open spec fn delay_wf(d: DigitalDelay) -> bool {
    &&& 0 <= d.delay_time <= FX_ONE
    &&& 0 <= d.feedback <= FEEDBACK_MAX
    &&& 0 <= d.mix <= FX_ONE
    &&& d.buffer.len() == DELAY_BUFFER_SIZE
    &&& d.write_pos < DELAY_BUFFER_SIZE
    &&& d.read_pos < DELAY_BUFFER_SIZE
    &&& -DELAY_SIGNAL_BOUND <= d.feedback_filter <= DELAY_SIGNAL_BOUND
    &&& forall|i: int|
        0 <= i < DELAY_BUFFER_SIZE ==> -DELAY_SIGNAL_BOUND <= #[trigger] d.buffer[i]
            <= DELAY_SIGNAL_BOUND
}

/// A silent delay line with the given parameters.
pub fn delay_new(enabled: bool, delay_time: i64, feedback: i64, mix: i64) -> (d: DigitalDelay)
    requires
        0 <= delay_time <= FX_ONE,
        0 <= feedback <= FEEDBACK_MAX,
        0 <= mix <= FX_ONE,
    ensures
        delay_wf(d),
        d.enabled == enabled,
        d.delay_time == delay_time,
        d.feedback == feedback,
        d.mix == mix,
        d.write_pos == 0 && d.read_pos == 0 && d.feedback_filter == 0,
        forall|i: int| 0 <= i < DELAY_BUFFER_SIZE ==> #[trigger] d.buffer[i] == 0,
{
    proof {
        reveal(delay_wf);
    }
    let mut buffer: Vec<i64> = Vec::new();
    while buffer.len() < DELAY_BUFFER_SIZE
        invariant
            buffer.len() <= DELAY_BUFFER_SIZE,
            forall|i: int| 0 <= i < buffer.len() ==> #[trigger] buffer[i] == 0,
        decreases DELAY_BUFFER_SIZE - buffer.len(),
    {
        buffer.push(0);
    }
    DigitalDelay {
        enabled,
        delay_time,
        feedback,
        mix,
        buffer,
        write_pos: 0,
        read_pos: 0,
        feedback_filter: 0,
    }
}

/// Moves the read cursor `delay_time` worth of samples behind the write
/// cursor, wrapping through the buffer. Nothing else changes.
pub fn update_delay_buffer_positions(d: &mut DigitalDelay)
    requires
        delay_wf(*old(d)),
    ensures
        delay_wf(*final(d)),
        final(d).read_pos == delay_read_index(*old(d)),
        final(d).enabled == old(d).enabled,
        final(d).delay_time == old(d).delay_time,
        final(d).feedback == old(d).feedback,
        final(d).mix == old(d).mix,
        final(d).buffer == old(d).buffer,
        final(d).write_pos == old(d).write_pos,
        final(d).feedback_filter == old(d).feedback_filter,
{
    proof {
        reveal(delay_wf);
        vstd::arithmetic::div_mod::lemma_div_pos_is_pos(
            d.delay_time as int * (DELAY_BUFFER_SIZE as int),
            FX_ONE as int,
        );
        vstd::arithmetic::div_mod::lemma_multiply_divide_le(
            d.delay_time as int * (DELAY_BUFFER_SIZE as int),
            FX_ONE as int,
            DELAY_BUFFER_SIZE as int,
        );
    }
    let raw: i64 = (d.delay_time * 44100) / FX_ONE;
    let delay_samples: usize = fx_clamp(raw, 1, 44099) as usize;
    d.read_pos = if d.write_pos >= delay_samples {
        d.write_pos - delay_samples
    } else {
        DELAY_BUFFER_SIZE - (delay_samples - d.write_pos)
    };
}

/// Runs one sample through the delay line. A disabled delay is an exact
/// pass-through that leaves every field of its state alone.
pub fn apply_digital_delay(d: &mut DigitalDelay, input: i64) -> (r: i64)
    requires
        delay_wf(*old(d)),
        -2 * (FX_ONE as int) <= input <= 2 * (FX_ONE as int),
    ensures
        delay_wf(*final(d)),
        !old(d).enabled ==> r == input && *final(d) == *old(d),
        old(d).enabled ==> {
            &&& r == delay_out_spec(*old(d), input as int)
            &&& final(d).read_pos == delay_read_index(*old(d))
            &&& final(d).feedback_filter == delay_ff_next(*old(d))
            &&& final(d).buffer@ == old(d).buffer@.update(
                old(d).write_pos as int,
                delay_written(*old(d), input as int) as i64,
            )
            &&& final(d).write_pos == (old(d).write_pos + 1) % (DELAY_BUFFER_SIZE as int)
            &&& final(d).enabled == old(d).enabled
            &&& final(d).delay_time == old(d).delay_time
            &&& final(d).feedback == old(d).feedback
            &&& final(d).mix == old(d).mix
        },
        -2 * (FX_ONE as int) <= r <= 2 * (FX_ONE as int),
{
    proof {
        reveal(delay_wf);
    }
    if !d.enabled {
        return input;
    }
    update_delay_buffer_positions(d);
    let delayed: i64 = d.buffer[d.read_pos];
    proof {
        lemma_fx_mul_le(FEEDBACK_LP as int, delayed as int, 3435973836, 193273528320, 154618822620);
        lemma_fx_mul_le(
            FEEDBACK_LP_REST as int,
            d.feedback_filter as int,
            858993460,
            193273528320,
            38654705700,
        );
    }
    d.feedback_filter = fx_mul(FEEDBACK_LP, delayed) + fx_mul(FEEDBACK_LP_REST, d.feedback_filter);
    proof {
        lemma_fx_mul_le(
            d.feedback_filter as int,
            d.feedback as int,
            193273528320,
            4080218931,
            183609851895,
        );
    }
    let feedback_signal: i64 = fx_mul(d.feedback_filter, d.feedback);
    let written: i64 = input + feedback_signal;
    d.buffer.set(d.write_pos, written);
    d.write_pos = (d.write_pos + 1) % DELAY_BUFFER_SIZE;
    proof {
        lemma_fx_mul_le(input as int, FX_ONE as int - d.mix as int, 8589934592, 4294967296,
            8589934592);
        lemma_fx_mul_le(delayed as int, d.mix as int, 193273528320, 4294967296, 193273528320);
    }
    let dry: i64 = fx_mul(input, FX_ONE - d.mix);
    let wet: i64 = fx_mul(delayed, d.mix);
    fx_clamp(dry + wet, -6442450944, 6442450944)
}

} // verus!
