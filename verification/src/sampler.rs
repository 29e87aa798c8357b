//! The sample player: fixed-rate playback of a short 8-bit unsigned PCM
//! clip through a fractional position, resampled to the engine rate with
//! a fixed pitch-correction factor of 0.75.

use vstd::prelude::*;

verus! {

use crate::fx::{
    FX_ONE,
    fx_mul,
    fx_clamp,
    fx_mul_spec,
    clamp_spec,
    lemma_fx_mul_le,
    lemma_fx_mul_nonneg,
};
use crate::apu::{Apu, apu_wf, sample_player_wf, SAMPLE_LEN_LIMIT};

/// The source rate over the engine rate, in Q32.32.
pub open spec fn sample_ratio(rate: int) -> int {
    (rate * (FX_ONE as int)) / 44100
}

/// How far one engine sample advances the clip position: the rate ratio
/// scaled by the fixed pitch-correction factor 0.75.
pub open spec fn sample_advance(rate: int) -> int {
    fx_mul_spec(sample_ratio(rate), 3221225472)
}

/// Whether the player will emit a clip sample this call.
pub open spec fn sample_playing(a: Apu) -> bool {
    &&& a.sample_active
    &&& a.sample_data matches Some(d) && a.sample_position as int / (FX_ONE as int) < d@.len()
}

/// The player's contribution to the mix: the byte under the integer part
/// of the position, recentred from [0, 255] to [-1, 1], at the sample
/// volume; silence when idle or past the end.
pub open spec fn sample_out(a: Apu) -> int {
    if sample_playing(a) {
        match a.sample_data {
            Some(d) => fx_mul_spec(
                (d@[a.sample_position as int / (FX_ONE as int)] as int - 128) * 33554432,
                a.sample_volume as int,
            ),
            None => 0,
        }
    } else {
        0
    }
}

impl Apu {
    /// Emits one sample of the playing clip and advances the fractional
    /// position; past the clip's end the player shuts itself off and
    /// drops the clip.
    pub fn update_sample_playback(&mut self) -> (r: i64)
        requires
            sample_player_wf(*old(self)),
        ensures
            sample_player_wf(*final(self)),
            r == sample_out(*old(self)),
            sample_playing(*old(self)) ==> *final(self) == (Apu {
                sample_position: (old(self).sample_position + sample_advance(
                    old(self).sample_data_rate as int,
                )) as i64,
                ..*old(self)
            }),
            old(self).sample_active && old(self).sample_data is Some && !sample_playing(
                *old(self),
            ) ==> *final(self) == (Apu {
                sample_active: false,
                sample_data: None,
                ..*old(self)
            }),
            !old(self).sample_active || old(self).sample_data is None ==> *final(self) == *old(
                self,
            ),
            -FX_ONE <= r <= FX_ONE,
    {
        if !self.sample_active {
            return 0;
        }
        if self.sample_data.is_none() {
            return 0;
        }
        let idx64: i64 = self.sample_position / FX_ONE;
        proof {
            vstd::arithmetic::div_mod::lemma_div_pos_is_pos(
                self.sample_position as int,
                FX_ONE as int,
            );
            vstd::arithmetic::div_mod::lemma_multiply_divide_le(
                self.sample_position as int,
                FX_ONE as int,
                0x48000000,
            );
        }
        let idx: usize = idx64 as usize;
        let len: usize = match &self.sample_data {
            Some(d) => d.len(),
            None => 0,
        };
        if idx >= len {
            self.sample_active = false;
            self.sample_data = None;
            return 0;
        }
        let byte: u8 = match &self.sample_data {
            Some(d) => d[idx],
            None => 0,
        };
        let val: i64 = (byte as i64 - 128) * 33554432;
        let rate_scaled: u64 = (self.sample_data_rate as u64) * 4294967296;
        let ratio: i64 = (rate_scaled / 44100) as i64;
        proof {
            vstd::arithmetic::div_mod::lemma_div_pos_is_pos(rate_scaled as int, 44100);
            vstd::arithmetic::div_mod::lemma_multiply_divide_le(
                rate_scaled as int,
                44100,
                418293516313256,
            );
            lemma_fx_mul_le(ratio as int, 3221225472, 418293516313256, 3221225472,
                313720137234943);
            lemma_fx_mul_nonneg(ratio as int, 3221225472);
        }
        let advance: i64 = fx_mul(ratio, 3221225472);
        self.sample_position = self.sample_position + advance;
        proof {
            lemma_fx_mul_le(val as int, self.sample_volume as int, 4294967296, 4294967296,
                4294967296);
        }
        fx_mul(val, self.sample_volume)
    }

    /// Starts playback of an 8-bit unsigned PCM clip recorded at the
    /// given rate. The clip's length is capped so the fractional position
    /// arithmetic stays exact.
    pub fn play_sample(&mut self, data: Vec<u8>, rate: u32)
        requires
            apu_wf(*old(self)),
            data@.len() <= SAMPLE_LEN_LIMIT,
        ensures
            apu_wf(*final(self)),
            *final(self) == (Apu {
                sample_active: true,
                sample_data: Some(data),
                sample_data_rate: rate,
                sample_position: 0,
                ..*old(self)
            }),
    {
        self.sample_data = Some(data);
        self.sample_data_rate = rate;
        self.sample_position = 0;
        self.sample_active = true;
    }

    /// Stops playback and drops the clip.
    pub fn stop_sample(&mut self)
        requires
            apu_wf(*old(self)),
        ensures
            apu_wf(*final(self)),
            *final(self) == (Apu {
                sample_active: false,
                sample_data: None,
                sample_position: 0,
                ..*old(self)
            }),
    {
        self.sample_active = false;
        self.sample_data = None;
        self.sample_position = 0;
    }

    /// Sets the clip volume, clamped into [0, 1].
    pub fn set_sample_volume(&mut self, volume: i64)
        requires
            apu_wf(*old(self)),
        ensures
            apu_wf(*final(self)),
            *final(self) == (Apu {
                sample_volume: clamp_spec(volume as int, 0, FX_ONE as int) as i64,
                ..*old(self)
            }),
    {
        self.sample_volume = fx_clamp(volume, 0, FX_ONE);
    }
}

} // verus!
