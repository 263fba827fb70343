//! The sound generator as a mathematical value, and each of its operations
//! as a function on that value.

use super::channel::{channel_volume, dda_on, key_on, noise_on, PsgChannel};
use super::tables::{
    balance_scale, db_gain, phase_step, PSG_OUTPUT_GAIN, PSG_REG_CH_BALANCE, PSG_REG_CH_CONTROL,
    PSG_REG_CH_SELECT, PSG_REG_FREQ_HI, PSG_REG_FREQ_LO, PSG_REG_LFO_CTRL, PSG_REG_LFO_FREQ,
    PSG_REG_MAIN_BALANCE, PSG_REG_NOISE_CTRL, PSG_REG_TIMER_CTRL, PSG_REG_TIMER_HI,
    PSG_REG_TIMER_LO, PSG_REG_WAVE_DATA, PSG_STATUS_IRQ,
};
use vstd::prelude::*;

verus! {

/// Half of `value`, rounded toward zero.
pub open spec fn half_toward_zero(value: int) -> int {
    if value >= 0 {
        value / 2
    } else {
        -((-value) / 2)
    }
}

/// `value` held within `low..=high`.
pub open spec fn clamp_to(value: int, low: int, high: int) -> int {
    if value < low {
        low
    } else if value > high {
        high
    } else {
        value
    }
}

/// Attenuation level of one side of a channel: the attenuations of the
/// channel volume, of the channel balance and of the main balance add up,
/// and 31 is silence.
pub open spec fn attenuation(control: u8, balance_code: int, main_code: int) -> int {
    let level = (31 - channel_volume(control)) + (31 - balance_scale(balance_code)) + (31
        - balance_scale(main_code));
    if level > 31 {
        31
    } else {
        level
    }
}

/// The output sample for a mix of the six channels: the gain is applied, the
/// 16 fractional bits are dropped, and the result is held within the range
/// of a signed 16-bit sample.
pub open spec fn output_sample(mix: int) -> int {
    clamp_to(mix * PSG_OUTPUT_GAIN / 0x1_0000, i16::MIN as int, i16::MAX as int)
}

/// The state of the sound generator.
#[verifier::ext_equal]
pub struct PsgView {
    /// Last byte written to each of the 32 registers.
    pub regs: Seq<u8>,
    /// Address latch of the data port.
    pub select: u8,
    /// Channel that the channel registers address.
    pub current_channel: nat,
    /// Main balance: left in the high nibble, right in the low one.
    pub main_balance: u8,
    /// LFO frequency register.
    pub lfo_frequency: u8,
    /// LFO control register.
    pub lfo_control: u8,
    /// Cycles counted toward the next timer period.
    pub accumulator: nat,
    /// The timer interrupt is asserted.
    pub irq_pending: bool,
    /// The six channels.
    pub channels: Seq<PsgChannel>,
    /// Waveforms of the six channels, 32 samples of 5 bits each.
    pub waveform_ram: Seq<u8>,
}

impl PsgView {
    /// The collections have their sizes, the selected channel exists, every
    /// channel is well-formed, and every waveform sample has 5 bits.
    pub open spec fn wf(self) -> bool {
        &&& self.regs.len() == 32
        &&& self.current_channel < 6
        &&& self.accumulator <= u32::MAX
        &&& self.channels.len() == 6
        &&& forall|i: int| 0 <= i < 6 ==> (#[trigger] self.channels[i]).wf()
        &&& self.waveform_ram.len() == 192
        &&& forall|i: int| 0 <= i < 192 ==> #[trigger] self.waveform_ram[i] < 32
    }

    /// The state at power-on and after a reset.
    pub open spec fn initial() -> PsgView {
        PsgView {
            regs: Seq::new(32, |i: int| 0u8),
            select: 0,
            current_channel: 0,
            main_balance: 0xFF,
            lfo_frequency: 0,
            lfo_control: 0,
            accumulator: 0,
            irq_pending: false,
            channels: Seq::new(6, |i: int| PsgChannel::initial()),
            waveform_ram: Seq::new(192, |i: int| 0u8),
        }
    }

    /// The channel that the channel registers address.
    pub open spec fn current(self) -> PsgChannel {
        self.channels[self.current_channel as int]
    }

    /// The state with the addressed channel replaced.
    pub open spec fn with_current(self, channel: PsgChannel) -> PsgView {
        PsgView { channels: self.channels.update(self.current_channel as int, channel), ..self }
    }

    /// A write to the address port.
    pub open spec fn write_address(self, value: u8) -> PsgView {
        PsgView { select: value, ..self }
    }

    /// A write to the channel select register: the low three bits select the
    /// channel, and the codes 6 and 7 select channel 5.
    pub open spec fn select_channel(self, value: u8) -> PsgView {
        PsgView { current_channel: if value % 8 >= 6 { 5nat } else { (value % 8) as nat }, ..self }
    }

    /// A write to the waveform data register. In direct-sample mode the
    /// sample is latched for output. While the key is off the sample is also
    /// stored at the write position, which moves on by one, modulo 32. While
    /// the key is on the waveform is not changed.
    pub open spec fn write_wave_data(self, value: u8) -> PsgView {
        let channel = self.current();
        let sample = value % 32;
        let latched = if dda_on(channel.control) {
            PsgChannel { dda_sample: sample, ..channel }
        } else {
            channel
        };
        if key_on(channel.control) {
            self.with_current(latched)
        } else {
            PsgView {
                waveform_ram: self.waveform_ram.update(
                    self.current_channel * 32 + channel.wave_write_pos,
                    sample,
                ),
                ..self.with_current(
                    PsgChannel {
                        wave_write_pos: ((channel.wave_write_pos + 1) % 32) as u8,
                        ..latched
                    },
                )
            }
        }
    }

    /// A write to the noise control register, which only channels 4 and 5
    /// have.
    pub open spec fn write_noise_control(self, value: u8) -> PsgView {
        if self.current_channel >= 4 {
            self.with_current(PsgChannel { noise_control: value, ..self.current() })
        } else {
            self
        }
    }

    /// What a write of `value` to register `index` does besides storing the
    /// byte.
    pub open spec fn write_register(self, index: int, value: u8) -> PsgView {
        if index == PSG_REG_CH_SELECT {
            self.select_channel(value)
        } else if index == PSG_REG_MAIN_BALANCE {
            PsgView { main_balance: value, ..self }
        } else if index == PSG_REG_FREQ_LO {
            self.with_current(self.current().with_frequency_low(value))
        } else if index == PSG_REG_FREQ_HI {
            self.with_current(self.current().with_frequency_high(value))
        } else if index == PSG_REG_CH_CONTROL {
            self.with_current(self.current().with_control(value))
        } else if index == PSG_REG_CH_BALANCE {
            self.with_current(PsgChannel { balance: value, ..self.current() })
        } else if index == PSG_REG_WAVE_DATA {
            self.write_wave_data(value)
        } else if index == PSG_REG_NOISE_CTRL {
            self.write_noise_control(value)
        } else if index == PSG_REG_LFO_FREQ {
            PsgView { lfo_frequency: value, ..self }
        } else if index == PSG_REG_LFO_CTRL {
            PsgView { lfo_control: value, ..self }
        } else if index == PSG_REG_TIMER_LO || index == PSG_REG_TIMER_HI {
            PsgView { accumulator: 0, ..self }
        } else if index == PSG_REG_TIMER_CTRL {
            PsgView { irq_pending: self.irq_pending && value % 2 == 1, ..self }
        } else {
            self
        }
    }

    /// The channel whose waveform holds the sample at `addr` of waveform
    /// memory; the address wraps at the size of the memory.
    pub open spec fn wave_owner(addr: int) -> int {
        addr % 192 / 32
    }

    /// A write straight into waveform memory: the address wraps at the size
    /// of the memory. While the key of the channel that owns the sample is
    /// off, the low 5 bits of the value are stored. While it is on, the
    /// write is not accepted and the memory stays as it is.
    pub open spec fn write_wave_ram(self, addr: int, value: u8) -> PsgView {
        if key_on(self.channels[Self::wave_owner(addr)].control) {
            self
        } else {
            PsgView { waveform_ram: self.waveform_ram.update(addr % 192, value % 32), ..self }
        }
    }

    /// A write to address `index` of the register file: the 32 registers come
    /// first and waveform memory follows.
    pub open spec fn write_direct(self, index: int, value: u8) -> PsgView {
        if index < 32 {
            PsgView { regs: self.regs.update(index, value), ..self }.write_register(index, value)
        } else {
            self.write_wave_ram(index - 32, value)
        }
    }

    /// A write to the data port: a write to the latched address, after which
    /// the latch moves on by one, modulo 256.
    pub open spec fn write_data(self, value: u8) -> PsgView {
        PsgView {
            select: ((self.select + 1) % 256) as u8,
            ..self.write_direct(self.select as int, value)
        }
    }

    /// The byte at address `index` of the register file.
    pub open spec fn read_direct(self, index: int) -> u8 {
        if index < 32 {
            self.regs[index]
        } else {
            self.waveform_ram[(index - 32) % 192]
        }
    }

    /// The byte that a read of the data port returns.
    pub open spec fn read_data_value(self) -> u8 {
        self.read_direct(self.select as int)
    }

    /// The state after a read of the data port: the latch moves on by one,
    /// modulo 256.
    pub open spec fn read_data(self) -> PsgView {
        PsgView { select: ((self.select + 1) % 256) as u8, ..self }
    }

    /// The status byte: bit 7 is the timer interrupt.
    pub open spec fn read_status(self) -> u8 {
        if self.irq_pending {
            PSG_STATUS_IRQ
        } else {
            0
        }
    }

    /// The period of the timer in cycles: 13 bits, of which the low timer
    /// register holds the low eight.
    pub open spec fn timer_period(self) -> int {
        self.regs[PSG_REG_TIMER_HI as int] % 32 * 256 + self.regs[PSG_REG_TIMER_LO as int]
    }

    /// The timer counts: its period is not 0 and bit 0 of the timer control
    /// register is set.
    pub open spec fn timer_enabled(self) -> bool {
        self.timer_period() != 0 && self.regs[PSG_REG_TIMER_CTRL as int] % 2 == 1
    }

    /// The timer raises an interrupt when a period ends: bit 1 of the timer
    /// control register is set.
    pub open spec fn timer_irq_enabled(self) -> bool {
        self.regs[PSG_REG_TIMER_CTRL as int] / 2 % 2 == 1
    }

    /// The timer counts in this state: it is enabled and no interrupt of it
    /// waits to be acknowledged.
    pub open spec fn timer_runs(self) -> bool {
        self.timer_enabled() && !self.irq_pending
    }

    /// The cycle count after `cycles` more cycles, before a period that has
    /// ended is taken off. The count saturates at the largest 32-bit value.
    pub open spec fn cycles_counted(self, cycles: u32) -> int {
        if self.accumulator + cycles > u32::MAX {
            u32::MAX as int
        } else {
            self.accumulator + cycles
        }
    }

    /// `cycles` cycles end a period of the running timer.
    pub open spec fn period_ends(self, cycles: u32) -> bool {
        self.timer_runs() && self.cycles_counted(cycles) >= self.timer_period()
    }

    /// `cycles` cycles make the timer raise its interrupt.
    pub open spec fn tick_fires(self, cycles: u32) -> bool {
        self.period_ends(cycles) && self.timer_irq_enabled()
    }

    /// The state after `cycles` cycles. A timer that does not run keeps its
    /// state. A running timer counts the cycles; when a period ends, whole
    /// periods are taken off the count, and the interrupt is asserted if it
    /// is enabled.
    pub open spec fn tick(self, cycles: u32) -> PsgView {
        if !self.timer_runs() {
            self
        } else if self.period_ends(cycles) {
            PsgView {
                accumulator: (self.cycles_counted(cycles) % self.timer_period()) as nat,
                irq_pending: self.timer_irq_enabled(),
                ..self
            }
        } else {
            PsgView { accumulator: self.cycles_counted(cycles) as nat, ..self }
        }
    }

    /// The timer interrupt is acknowledged.
    pub open spec fn acknowledge(self) -> PsgView {
        PsgView { irq_pending: false, ..self }
    }

    /// Bit 7 of the LFO control register: channel 1 modulates the period of
    /// channel 0.
    pub open spec fn lfo_enabled(self) -> bool {
        self.lfo_control >= 0x80
    }

    /// What the LFO adds to the period of channel 0: the signed sample at the
    /// waveform position of channel 1, doubled as often as the low two bits
    /// of the LFO control register say, plus the low nibble of the LFO
    /// frequency register.
    pub open spec fn lfo_modulation(self) -> int {
        if !self.lfo_enabled() {
            0
        } else {
            let raw = self.waveform_ram[32 + self.channels[1].wave_pos] - 16;
            let depth = self.lfo_control % 4;
            let factor: int = if depth == 0 {
                1
            } else if depth == 1 {
                2
            } else if depth == 2 {
                4
            } else {
                8
            };
            raw * factor + self.lfo_frequency % 16
        }
    }

    /// Phase increment of the tone oscillator of channel `index` for the next
    /// sample. Channel 0 under the LFO takes the increment of its modulated
    /// period, held within 12 bits.
    pub open spec fn tone_step(self, index: int) -> int {
        if index == 0 && self.lfo_enabled() {
            phase_step(clamp_to(self.channels[0].frequency + self.lfo_modulation(), 0, 0x0FFF))
        } else {
            self.channels[index].phase_step as int
        }
    }

    /// Channel `index` plays noise.
    pub open spec fn plays_noise(index: int, channel: PsgChannel) -> bool {
        index >= 4 && noise_on(channel.noise_control)
    }

    /// Channel `index` after the oscillators have moved on by one sample. A
    /// channel whose key is off or that is in direct-sample mode stands
    /// still.
    pub open spec fn advance_channel(self, index: int) -> PsgChannel {
        let channel = self.channels[index];
        if !channel.is_running() {
            channel
        } else if Self::plays_noise(index, channel) {
            channel.advance_noise()
        } else {
            channel.advance_tone(self.tone_step(index))
        }
    }

    /// The state after all oscillators have moved on by one sample. The LFO
    /// takes the waveform position of channel 1 from before the move.
    pub open spec fn advance_waveforms(self) -> PsgView {
        PsgView { channels: Seq::new(6, |i: int| self.advance_channel(i)), ..self }
    }

    /// The signed level that a channel in state `state` puts out: the latched
    /// sample in direct-sample mode, the low bit of the noise register for a
    /// noise channel, else the waveform sample at the play position, taken
    /// modulo 32; each centred on 0.
    pub open spec fn raw_level(self, channel: int, state: PsgChannel) -> int {
        if dda_on(state.control) {
            state.dda_sample - 16
        } else if Self::plays_noise(channel, state) {
            if state.noise_lfsr % 2 == 0 {
                15
            } else {
                -16
            }
        } else {
            self.waveform_ram[channel * 32 + state.wave_pos % 32] - 16
        }
    }

    /// The contribution of a channel in state `state` to the mix, with 16
    /// fractional bits: the mean of its left and right outputs, each the
    /// level times the gain of that side; 0 while the key is off.
    pub open spec fn sample_channel(self, channel: int, state: PsgChannel) -> int {
        if !key_on(state.control) {
            0
        } else {
            let raw = self.raw_level(channel, state);
            let left = raw * db_gain(
                attenuation(state.control, state.balance as int / 16, self.main_balance as int / 16),
            );
            let right = raw * db_gain(
                attenuation(state.control, state.balance as int % 16, self.main_balance as int % 16),
            );
            half_toward_zero(left + right)
        }
    }

    /// The contribution of channel `channel` in its present state.
    pub open spec fn channel_sample(self, channel: int) -> int {
        self.sample_channel(channel, self.channels[channel])
    }

    /// The sum of the contributions of the six channels.
    pub open spec fn mix(self) -> int {
        self.channel_sample(0) + self.channel_sample(1) + self.channel_sample(2)
            + self.channel_sample(3) + self.channel_sample(4) + self.channel_sample(5)
    }

    /// The sample that is put out next: the oscillators move on, then the
    /// channels are mixed.
    pub open spec fn next_sample(self) -> int {
        output_sample(self.advance_waveforms().mix())
    }
}

} // verus!
