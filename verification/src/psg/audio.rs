//! Sample generation: the oscillators move on by one sample, each channel
//! is scaled by its logarithmic volume, and the six are mixed.

use super::bits::{lemma_byte_fields, lemma_drop_fraction};
use super::channel::PsgChannel;
use super::model::{attenuation, clamp_to, PsgView};
use super::noise::{lemma_lfsr_never_zero, noise_step};
use super::tables::{
    db_gain, lemma_phase_step_bounds, phase_step_for_period, psg_balance_scale_tab, psg_db_table,
    PSG_CHANNEL_COUNT, PSG_CH_CTRL_DDA, PSG_CH_CTRL_KEY_ON, PSG_CH_CTRL_VOLUME_MASK,
    PSG_NOISE_ENABLE, PSG_OUTPUT_GAIN, PSG_PHASE_STEP_MAX, PSG_PHASE_STEP_MIN, PSG_WAVE_SIZE,
};
use super::Psg;
use vstd::prelude::*;

verus! {

/// A gain of the table is between silence and unity.
pub proof fn lemma_db_gain_range(level: int)
    requires
        0 <= level < 32,
    ensures
        0 <= db_gain(level) <= 0x1_0000,
{
}

/// A level between -16 and 15 times a gain stays within 21 bits.
proof fn lemma_scaled_level_range(raw: int, gain: int)
    by (nonlinear_arith)
    requires
        -16 <= raw <= 15,
        0 <= gain <= 0x1_0000,
    ensures
        -0x10_0000 <= raw * gain <= 0xF_0000,
{
}

impl PsgView {
    /// The level of a channel is a signed 5-bit number.
    pub proof fn lemma_raw_level_range(self, channel: int, state: PsgChannel)
        requires
            self.wf(),
            0 <= channel < 6,
            state.dda_sample < 32,
        ensures
            -16 <= self.raw_level(channel, state) <= 15,
    {
    }

    /// The contribution of a channel stays within 21 bits.
    pub proof fn lemma_sample_channel_range(self, channel: int, state: PsgChannel)
        requires
            self.wf(),
            0 <= channel < 6,
            state.dda_sample < 32,
        ensures
            -0x10_0000 <= self.sample_channel(channel, state) <= 0xF_0000,
    {
        let raw = self.raw_level(channel, state);
        let left = attenuation(
            state.control,
            state.balance as int / 16,
            self.main_balance as int / 16,
        );
        let right = attenuation(
            state.control,
            state.balance as int % 16,
            self.main_balance as int % 16,
        );
        lemma_scaled_level_range(raw, db_gain(left));
        lemma_scaled_level_range(raw, db_gain(right));
    }

    /// The mix stays within six times the range of one channel.
    pub proof fn lemma_mix_range(self)
        requires
            self.wf(),
        ensures
            -0x60_0000 <= self.mix() <= 0x5A_0000,
    {
        self.lemma_sample_channel_range(0, self.channels[0]);
        self.lemma_sample_channel_range(1, self.channels[1]);
        self.lemma_sample_channel_range(2, self.channels[2]);
        self.lemma_sample_channel_range(3, self.channels[3]);
        self.lemma_sample_channel_range(4, self.channels[4]);
        self.lemma_sample_channel_range(5, self.channels[5]);
    }

    /// The sum of the contributions of the first `count` channels.
    spec fn mix_of_first(self, count: nat) -> int
        decreases count,
    {
        if count == 0 {
            0
        } else {
            self.mix_of_first((count - 1) as nat) + self.channel_sample(count - 1)
        }
    }

    /// Summing the channels one after the other gives the mix.
    proof fn lemma_mix_of_all(self)
        ensures
            self.mix_of_first(6) == self.mix(),
    {
        reveal_with_fuel(PsgView::mix_of_first, 7);
    }

    /// The oscillators keep the state well-formed.
    pub proof fn lemma_advance_waveforms_wf(self)
        requires
            self.wf(),
        ensures
            self.advance_waveforms().wf(),
    {
        assert forall|i: int| 0 <= i < 6 implies (#[trigger] self.advance_waveforms().channels[i]).wf() by {
            self.lemma_advance_channel_wf(i);
        }
    }

    /// The oscillators keep a channel well-formed.
    pub proof fn lemma_advance_channel_wf(self, index: int)
        requires
            self.wf(),
            0 <= index < 6,
        ensures
            self.advance_channel(index).wf(),
    {
        let channel = self.channels[index];
        if channel.is_running() && Self::plays_noise(index, channel) {
            let total = channel.noise_phase + noise_step(channel.noise_control);
            lemma_lfsr_never_zero(channel.noise_lfsr as int, (total / 0x1_0000) as nat);
        }
    }

    /// The phase increment of a channel, modulated or not, lies between the
    /// increments of the longest period and of period 1.
    pub proof fn lemma_tone_step_range(self, index: int)
        requires
            self.wf(),
            0 <= index < 6,
        ensures
            PSG_PHASE_STEP_MIN <= self.tone_step(index) <= PSG_PHASE_STEP_MAX,
    {
        if index == 0 && self.lfo_enabled() {
            let period = clamp_to(
                self.channels[0].frequency + self.lfo_modulation(),
                0,
                0x0FFF,
            );
            lemma_phase_step_bounds(period);
        } else {
            self.channels[index].lemma_phase_step_range();
        }
    }
}

impl Psg {
    /// Channel 1 modulates the period of channel 0.
    pub fn lfo_enabled(&self) -> (enabled: bool)
        ensures
            enabled == self@.lfo_enabled(),
    {
        proof {
            lemma_byte_fields(self.lfo_control);
        }
        self.lfo_control & 0x80 != 0
    }

    /// What the LFO adds to the period of channel 0.
    pub fn lfo_modulation(&self) -> (modulation: i32)
        requires
            self.wf(),
        ensures
            modulation == self@.lfo_modulation(),
            -128 <= modulation <= 135,
    {
        if !self.lfo_enabled() {
            return 0;
        }
        proof {
            lemma_byte_fields(self.lfo_control);
            lemma_byte_fields(self.lfo_frequency);
        }
        let depth = self.lfo_control & 0x03;
        let speed_bias = (self.lfo_frequency & 0x0F) as i32;
        let offset = self.channels[1].wave_pos as usize;
        let raw = self.waveform_ram[PSG_WAVE_SIZE + offset] as i32 - 0x10;
        let factor: i32 = if depth == 0 {
            1
        } else if depth == 1 {
            2
        } else if depth == 2 {
            4
        } else {
            8
        };
        raw * factor + speed_bias
    }

    /// Moves all oscillators on by one sample.
    pub fn advance_waveforms(&mut self)
        requires
            old(self).wf(),
        ensures
            final(self)@ == old(self)@.advance_waveforms(),
            final(self).wf(),
    {
        let lfo_mod = self.lfo_modulation();
        let lfo_enabled = self.lfo_enabled();
        let mut idx: usize = 0;
        while idx < PSG_CHANNEL_COUNT
            invariant
                idx <= 6,
                old(self).wf(),
                lfo_enabled == old(self)@.lfo_enabled(),
                lfo_mod == old(self)@.lfo_modulation(),
                -128 <= lfo_mod <= 135,
                self@.channels.len() == 6,
                forall|i: int| 0 <= i < idx ==> self@.channels[i] == old(self)@.advance_channel(i),
                forall|i: int| idx <= i < 6 ==> self@.channels[i] == old(self)@.channels[i],
                self@ == (PsgView { channels: self@.channels, ..old(self)@ }),
            decreases 6 - idx,
        {
            let channel = self.channels[idx];
            proof {
                lemma_byte_fields(channel.control);
                lemma_byte_fields(channel.noise_control);
                old(self)@.lemma_tone_step_range(idx as int);
            }
            if channel.control & PSG_CH_CTRL_KEY_ON != 0 && channel.control & PSG_CH_CTRL_DDA == 0 {
                if idx >= 4 && channel.noise_control & PSG_NOISE_ENABLE != 0 {
                    self.channels[idx] = channel.step_noise();
                } else {
                    let step = if idx == 0 && lfo_enabled {
                        let shifted = channel.frequency as i32 + lfo_mod;
                        let period: u16 = if shifted < 0 {
                            0
                        } else if shifted > 0x0FFF {
                            0x0FFF
                        } else {
                            shifted as u16
                        };
                        phase_step_for_period(period)
                    } else {
                        channel.phase_step
                    };
                    self.channels[idx] = channel.step_tone(step);
                }
            }
            idx += 1;
        }
        proof {
            old(self)@.lemma_advance_waveforms_wf();
        }
    }

    /// The contribution of channel `channel`, taken to be in state `state`,
    /// to the mix, with 16 fractional bits. The play position of the state is
    /// taken modulo 32.
    pub fn sample_channel(&self, channel: usize, state: PsgChannel) -> (sample: i32)
        requires
            self.wf(),
            channel < 6,
            state.dda_sample < 32,
        ensures
            sample == self@.sample_channel(channel as int, state),
            -0x10_0000 <= sample <= 0xF_0000,
    {
        proof {
            lemma_byte_fields(state.control);
            lemma_byte_fields(state.noise_control);
            lemma_byte_fields(state.balance);
            lemma_byte_fields(state.wave_pos);
            lemma_byte_fields(self.main_balance);
        }
        if state.control & PSG_CH_CTRL_KEY_ON == 0 {
            return 0;
        }
        let raw: i32 = if state.control & PSG_CH_CTRL_DDA != 0 {
            state.dda_sample as i32 - 0x10
        } else if channel >= 4 && state.noise_control & PSG_NOISE_ENABLE != 0 {
            if state.noise_lfsr % 2 == 0 {
                0x0F
            } else {
                -0x10
            }
        } else {
            let offset = (state.wave_pos & 0x1F) as usize;
            self.waveform_ram[channel * PSG_WAVE_SIZE + offset] as i32 - 0x10
        };
        let db_table = psg_db_table();
        let scale_tab = psg_balance_scale_tab();

        let al = 0x1F - (state.control & PSG_CH_CTRL_VOLUME_MASK);
        let bal_l = 0x1F - scale_tab[(state.balance >> 4) as usize];
        let bal_r = 0x1F - scale_tab[(state.balance & 0x0F) as usize];
        let gbal_l = 0x1F - scale_tab[(self.main_balance >> 4) as usize];
        let gbal_r = 0x1F - scale_tab[(self.main_balance & 0x0F) as usize];

        let sum_l = al as u16 + bal_l as u16 + gbal_l as u16;
        let sum_r = al as u16 + bal_r as u16 + gbal_r as u16;
        let vol_l = if sum_l > 0x1F { 0x1F } else { sum_l as usize };
        let vol_r = if sum_r > 0x1F { 0x1F } else { sum_r as usize };

        proof {
            lemma_db_gain_range(vol_l as int);
            lemma_db_gain_range(vol_r as int);
            lemma_scaled_level_range(raw as int, db_gain(vol_l as int));
            lemma_scaled_level_range(raw as int, db_gain(vol_r as int));
        }
        let left = raw as i64 * db_table[vol_l] as i64;
        let right = raw as i64 * db_table[vol_r] as i64;
        ((left + right) / 2) as i32
    }

    /// Produces the next output sample: the oscillators move on, the six
    /// channels are mixed, and the mix is scaled to a signed 16-bit sample.
    pub fn generate_sample(&mut self) -> (sample: i16)
        requires
            old(self).wf(),
        ensures
            final(self)@ == old(self)@.advance_waveforms(),
            sample == old(self)@.next_sample(),
            -32_640 <= sample <= 30_600,
            final(self).wf(),
    {
        self.advance_waveforms();
        let mut mix: i32 = 0;
        let mut channel_index: usize = 0;
        while channel_index < PSG_CHANNEL_COUNT
            invariant
                channel_index <= 6,
                self.wf(),
                mix == self@.mix_of_first(channel_index as nat),
                -0x10_0000 * channel_index <= mix <= 0xF_0000 * channel_index,
            decreases 6 - channel_index,
        {
            let state = self.channels[channel_index];
            mix += self.sample_channel(channel_index, state);
            channel_index += 1;
        }
        proof {
            self@.lemma_mix_of_all();
        }
        let amplified = mix as i64 * PSG_OUTPUT_GAIN as i64;
        let scaled = amplified >> 16;
        proof {
            lemma_drop_fraction(amplified);
        }
        let clamped = if scaled < i16::MIN as i64 {
            i16::MIN
        } else if scaled > i16::MAX as i64 {
            i16::MAX
        } else {
            scaled as i16
        };
        clamped
    }
}

} // verus!
