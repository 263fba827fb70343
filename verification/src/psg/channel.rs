//! One of the six channels: its registers, its oscillator state, and how
//! both change.

use super::bits::{lemma_accumulator_split, lemma_byte_fields};
use super::noise::{lfsr_advance, lfsr_run, noise_step, noise_step_for, PSG_LFSR_LIMIT};
use super::tables::{
    lemma_phase_step_bounds, phase_step, phase_step_for_period, PSG_PHASE_FRAC_BITS,
    PSG_PHASE_FRAC_MASK, PSG_PHASE_STEP_MAX, PSG_PHASE_STEP_MIN, PSG_WAVE_SIZE,
};
use vstd::prelude::*;

verus! {

/// Bit 7 of a channel control byte: the channel sounds.
pub open spec fn key_on(control: u8) -> bool {
    control >= 0x80
}

/// Bit 6 of a channel control byte: the channel plays the sample written to
/// its data port instead of its waveform.
pub open spec fn dda_on(control: u8) -> bool {
    control / 64 % 2 == 1
}

/// Bits 0 to 4 of a channel control byte: the volume, 31 being loudest.
pub open spec fn channel_volume(control: u8) -> int {
    control as int % 32
}

/// Bit 7 of a noise control byte: the channel plays noise instead of its
/// waveform.
pub open spec fn noise_on(noise_control: u8) -> bool {
    noise_control >= 0x80
}

/// Registers and oscillator state of one channel.
#[derive(Clone, Copy, Debug, PartialEq, Eq, Structural)]
pub struct PsgChannel {
    /// Tone period, 12 bits.
    pub frequency: u16,
    /// Phase increment per sample that belongs to `frequency`.
    pub phase_step: u32,
    /// Control byte: key-on, direct-sample mode and volume.
    pub control: u8,
    /// Left balance in the high nibble, right balance in the low one.
    pub balance: u8,
    /// Noise enable and noise frequency; used by channels 4 and 5 only.
    pub noise_control: u8,
    /// Fractional phase, 12 bits.
    pub phase: u32,
    /// Position in the waveform that is played next.
    pub wave_pos: u8,
    /// Position in the waveform that is written next.
    pub wave_write_pos: u8,
    /// Sample played in direct-sample mode, 5 bits.
    pub dda_sample: u8,
    /// Noise shift register, 18 bits. A shift never leaves it at 0.
    pub noise_lfsr: u32,
    /// Fractional shifts of the noise register, 16 bits.
    pub noise_phase: u32,
}

impl PsgChannel {
    /// The fields are within their widths, and the phase increment is the
    /// one of the tone period.
    pub open spec fn wf(self) -> bool {
        &&& self.frequency < 0x1000
        &&& self.phase_step == phase_step(self.frequency as int)
        &&& self.phase < 0x1000
        &&& self.wave_pos < 32
        &&& self.wave_write_pos < 32
        &&& self.dda_sample < 32
        &&& self.noise_lfsr < PSG_LFSR_LIMIT
        &&& self.noise_phase < 0x1_0000
    }

    /// The channel at power-on: period 0, which counts as 4096, with the
    /// phase increment of that period.
    pub open spec fn initial() -> PsgChannel {
        PsgChannel {
            frequency: 0,
            phase_step: 81,
            control: 0,
            balance: 0xFF,
            noise_control: 0,
            phase: 0,
            wave_pos: 0,
            wave_write_pos: 0,
            dda_sample: 0x10,
            noise_lfsr: 1,
            noise_phase: 0,
        }
    }

    /// The oscillator runs: the key is on and the channel is not in
    /// direct-sample mode.
    pub open spec fn is_running(self) -> bool {
        key_on(self.control) && !dda_on(self.control)
    }

    /// A write of the low byte of the tone period.
    pub open spec fn with_frequency_low(self, value: u8) -> PsgChannel {
        let frequency = self.frequency / 256 * 256 + value;
        PsgChannel {
            frequency: frequency as u16,
            phase_step: phase_step(frequency) as u32,
            ..self
        }
    }

    /// A write of the high nibble of the tone period.
    pub open spec fn with_frequency_high(self, value: u8) -> PsgChannel {
        let frequency = self.frequency % 256 + value % 16 * 256;
        PsgChannel {
            frequency: frequency as u16,
            phase_step: phase_step(frequency) as u32,
            ..self
        }
    }

    /// A write of the control byte. Leaving direct-sample mode rewinds both
    /// waveform positions. Switching the key on restarts the oscillators: the
    /// phases are cleared, the waveform plays from the write position, and
    /// the noise register is 1.
    pub open spec fn with_control(self, value: u8) -> PsgChannel {
        let rewound = dda_on(self.control) && !dda_on(value);
        let keyed = !key_on(self.control) && key_on(value);
        let write_pos = if rewound { 0u8 } else { self.wave_write_pos };
        PsgChannel {
            control: value,
            wave_write_pos: write_pos,
            wave_pos: if keyed { write_pos } else if rewound { 0u8 } else { self.wave_pos },
            phase: if keyed { 0u32 } else { self.phase },
            noise_phase: if keyed { 0u32 } else { self.noise_phase },
            noise_lfsr: if keyed { 1u32 } else { self.noise_lfsr },
            ..self
        }
    }

    /// One sample of the tone oscillator: the phase grows by `step`, and its
    /// whole part moves the waveform position, modulo the waveform's length.
    pub open spec fn advance_tone(self, step: int) -> PsgChannel {
        let total = self.phase + step;
        PsgChannel {
            phase: (total % 0x1000) as u32,
            wave_pos: ((self.wave_pos + total / 0x1000) % 32) as u8,
            ..self
        }
    }

    /// One sample of the noise oscillator: the noise phase grows by the noise
    /// step, and its whole part is the number of shifts of the register. A
    /// register at 0 is at 1 after the first of them.
    pub open spec fn advance_noise(self) -> PsgChannel {
        let total = self.noise_phase + noise_step(self.noise_control);
        PsgChannel {
            noise_phase: (total % 0x1_0000) as u32,
            noise_lfsr: lfsr_advance(self.noise_lfsr as int, (total / 0x1_0000) as nat) as u32,
            ..self
        }
    }

    /// The channel after `count` samples of its tone oscillator at the phase
    /// increment `step`.
    pub open spec fn advance_tone_by(self, step: int, count: nat) -> PsgChannel
        decreases count,
    {
        if count == 0 {
            self
        } else {
            self.advance_tone_by(step, (count - 1) as nat).advance_tone(step)
        }
    }

    /// A tone moves through its waveform at a constant rate: after `count`
    /// samples the phase has grown by `count * step`, all in all, and the
    /// waveform position by the whole part of that, modulo 32.
    pub proof fn lemma_tone_after(self, step: int, count: nat)
        requires
            self.phase < 0x1000,
            self.wave_pos < 32,
            0 <= step,
        ensures
            ({
                let total = self.phase + count * step;
                self.advance_tone_by(step, count) == PsgChannel {
                    phase: (total % 0x1000) as u32,
                    wave_pos: ((self.wave_pos + total / 0x1000) % 32) as u8,
                    ..self
                }
            }),
        decreases count,
    {
        let total = self.phase + count * step;
        if count == 0 {
            assert(count * step == 0) by (nonlinear_arith)
                requires
                    count == 0,
            ;
        } else {
            let before = (count - 1) as nat;
            let earlier = self.phase + before * step;
            self.lemma_tone_after(step, before);
            assert(count * step == before * step + step && before * step >= 0)
                by (nonlinear_arith)
                requires
                    before == count - 1,
                    0 <= step,
            ;
            let halfway = self.advance_tone_by(step, before);
            lemma_position_wrap(self.wave_pos as int, earlier / 0x1000, (halfway.phase + step)
                / 0x1000);
        }
    }

    /// The phase increment of a well-formed channel lies between the
    /// increments of the longest period and of period 1.
    pub proof fn lemma_phase_step_range(self)
        requires
            self.wf(),
        ensures
            PSG_PHASE_STEP_MIN <= self.phase_step <= PSG_PHASE_STEP_MAX,
    {
        lemma_phase_step_bounds(self.frequency as int);
    }

    /// Tests whether the channel is well-formed.
    pub fn is_valid(&self) -> (valid: bool)
        ensures
            valid == self.wf(),
    {
        self.frequency < 0x1000 && self.phase_step == phase_step_for_period(self.frequency)
            && self.phase < 0x1000 && self.wave_pos < 32 && self.wave_write_pos < 32
            && self.dda_sample < 32 && self.noise_lfsr < PSG_LFSR_LIMIT && self.noise_phase
            < 0x1_0000
    }

    /// The channel after one sample of its tone oscillator at the given phase
    /// increment.
    pub(crate) fn step_tone(self, step: u32) -> (next: PsgChannel)
        requires
            self.wf(),
            1 <= step <= PSG_PHASE_STEP_MAX,
        ensures
            next == self.advance_tone(step as int),
            next.wf(),
    {
        let phase = self.phase.wrapping_add(step);
        let whole = (phase >> PSG_PHASE_FRAC_BITS) as u8;
        proof {
            lemma_accumulator_split(phase);
            lemma_byte_fields((self.wave_pos + whole) as u8);
        }
        let mut next = self;
        next.phase = phase & PSG_PHASE_FRAC_MASK;
        if whole != 0 {
            next.wave_pos = self.wave_pos.wrapping_add(whole) & (PSG_WAVE_SIZE as u8 - 1);
        }
        next
    }

    /// The channel after one sample of its noise oscillator.
    pub(crate) fn step_noise(self) -> (next: PsgChannel)
        requires
            self.wf(),
        ensures
            next == self.advance_noise(),
            next.wf(),
    {
        let noise_phase = self.noise_phase.wrapping_add(noise_step_for(self.noise_control));
        let steps = noise_phase >> 16;
        proof {
            lemma_accumulator_split(noise_phase);
        }
        let mut next = self;
        next.noise_phase = noise_phase & 0xFFFF;
        next.noise_lfsr = lfsr_run(self.noise_lfsr, steps);
        next
    }
}

/// Moving a waveform position in two steps or in one leads to the same
/// place.
proof fn lemma_position_wrap(position: int, first: int, second: int)
    requires
        0 <= position,
        0 <= first,
        0 <= second,
    ensures
        ((position + first) % 32 + second) % 32 == (position + first + second) % 32,
{
}

impl Default for PsgChannel {
    /// The channel at power-on: silent, centred, at the longest period, with
    /// the noise register at 1.
    fn default() -> (channel: PsgChannel)
        ensures
            channel == PsgChannel::initial(),
            channel.wf(),
    {
        PsgChannel {
            frequency: 0,
            phase_step: phase_step_for_period(0),
            control: 0,
            balance: 0xFF,
            noise_control: 0,
            phase: 0,
            wave_pos: 0,
            wave_write_pos: 0,
            dda_sample: 0x10,
            noise_lfsr: 1,
            noise_phase: 0,
        }
    }
}

} // verus!
