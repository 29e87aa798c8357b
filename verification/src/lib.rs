//! Sound-generation core of a fantasy game console: a software audio chip
//! that synthesizes every tone, voice effect, and sampled clip the console
//! emits, one sample per call.
//!
//! All signal values, volumes, phases and timers are held in a signed
//! Q32.32 fixed-point format (`fx` module), so that the whole signal path —
//! oscillators, resonant filter, feedback delay, sequencers and mixer — is
//! plain integer arithmetic and every step of it is verified.

pub mod fx;
pub mod pitch;
pub mod trig;
pub mod filter;
pub mod delay;
pub mod oscillator;
pub mod channels;
pub mod apu;
pub mod sampler;
pub mod voicefx;
pub mod sequencer;
pub mod polybank;
pub mod sidbank;
pub mod controls;

use vstd::prelude::*;

verus! {

/// The engine's fixed output rate in samples per second.
pub const SAMPLE_RATE: i64 = 44100;

} // verus!
