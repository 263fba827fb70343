//! The sound generator and its register interface.
//!
//! - [`tables`]: clock constants, register numbers, the gain, balance and
//!   phase-step tables.
//! - [`channel`]: one channel and its oscillators.
//! - [`noise`]: the noise shift register and its clock.
//! - [`model`]: the state as a mathematical value and the operations on it.
//! - [`audio`]: sample generation.
//! - [`state`]: the state as a plain record, for saving and restoring.
//! - [`laws`]: the invariant and the laws of the operations.
//! - [`bits`]: masks and shifts as quotients and remainders.

pub mod audio;
pub mod bits;
pub mod channel;
pub mod laws;
pub mod model;
pub mod noise;
pub mod state;
pub mod tables;

use bits::{lemma_byte_fields, lemma_frequency_high, lemma_frequency_low, lemma_timer_period};
use channel::PsgChannel;
use model::PsgView;
use tables::{
    phase_step_for_period, PSG_CHANNEL_COUNT, PSG_CH_CTRL_DDA, PSG_CH_CTRL_KEY_ON,
    PSG_CTRL_ENABLE, PSG_CTRL_IRQ_ENABLE, PSG_REG_CH_BALANCE, PSG_REG_CH_CONTROL,
    PSG_REG_CH_SELECT, PSG_REG_COUNT, PSG_REG_FREQ_HI, PSG_REG_FREQ_LO, PSG_REG_LFO_CTRL,
    PSG_REG_LFO_FREQ, PSG_REG_MAIN_BALANCE, PSG_REG_NOISE_CTRL, PSG_REG_TIMER_CTRL,
    PSG_REG_TIMER_HI, PSG_REG_TIMER_LO, PSG_REG_WAVE_DATA, PSG_STATUS_IRQ, PSG_WAVE_RAM_SIZE,
    PSG_WAVE_SIZE,
};
use vstd::prelude::*;

verus! {

/// The sound generator.
pub struct Psg {
    regs: [u8; PSG_REG_COUNT],
    select: u8,
    current_channel: usize,
    main_balance: u8,
    lfo_frequency: u8,
    lfo_control: u8,
    accumulator: u32,
    irq_pending: bool,
    channels: [PsgChannel; PSG_CHANNEL_COUNT],
    waveform_ram: [u8; PSG_WAVE_RAM_SIZE],
}

impl View for Psg {
    type V = PsgView;

    closed spec fn view(&self) -> PsgView {
        PsgView {
            regs: self.regs@,
            select: self.select,
            current_channel: self.current_channel as nat,
            main_balance: self.main_balance,
            lfo_frequency: self.lfo_frequency,
            lfo_control: self.lfo_control,
            accumulator: self.accumulator as nat,
            irq_pending: self.irq_pending,
            channels: self.channels@,
            waveform_ram: self.waveform_ram@,
        }
    }
}

impl Clone for Psg {
    fn clone(&self) -> (copy: Psg)
        ensures
            copy@ == self@,
    {
        Psg {
            regs: self.regs,
            select: self.select,
            current_channel: self.current_channel,
            main_balance: self.main_balance,
            lfo_frequency: self.lfo_frequency,
            lfo_control: self.lfo_control,
            accumulator: self.accumulator,
            irq_pending: self.irq_pending,
            channels: self.channels,
            waveform_ram: self.waveform_ram,
        }
    }
}

impl Psg {
    /// The state is well-formed. Every constructor establishes this and
    /// every operation keeps it.
    pub open spec fn wf(&self) -> bool {
        self@.wf()
    }

    /// The sound generator at power-on.
    pub fn new() -> (psg: Psg)
        ensures
            psg@ == PsgView::initial(),
            psg.wf(),
    {
        let psg = Psg {
            regs: [0; PSG_REG_COUNT],
            select: 0,
            current_channel: 0,
            main_balance: 0xFF,
            lfo_frequency: 0,
            lfo_control: 0,
            accumulator: 0,
            irq_pending: false,
            channels: [PsgChannel::default(); PSG_CHANNEL_COUNT],
            waveform_ram: [0; PSG_WAVE_RAM_SIZE],
        };
        psg
    }

    /// Puts the sound generator back into its power-on state.
    pub fn reset(&mut self)
        ensures
            final(self)@ == PsgView::initial(),
            final(self).wf(),
    {
        *self = Psg::new();
    }

    /// Latches the address that the data port reads and writes next.
    pub fn write_address(&mut self, value: u8)
        requires
            old(self).wf(),
        ensures
            final(self)@ == old(self)@.write_address(value),
            final(self).wf(),
    {
        self.select = value;
    }

    /// Writes to the latched address and moves the latch on.
    pub fn write_data(&mut self, value: u8)
        requires
            old(self).wf(),
        ensures
            final(self)@ == old(self)@.write_data(value),
            final(self).wf(),
    {
        self.write_direct(self.select as usize, value);
        self.select = self.select.wrapping_add(1);
    }

    /// The latched address.
    pub fn read_address(&self) -> (value: u8)
        ensures
            value == self@.select,
    {
        self.select
    }

    /// Reads from the latched address and moves the latch on.
    pub fn read_data(&mut self) -> (value: u8)
        requires
            old(self).wf(),
        ensures
            value == old(self)@.read_data_value(),
            final(self)@ == old(self)@.read_data(),
            final(self).wf(),
    {
        let value = self.read_direct(self.select as usize);
        self.select = self.select.wrapping_add(1);
        value
    }

    /// Writes to address `index` of the register file: a register below 32,
    /// waveform memory from 32 on. Waveform memory takes the write only
    /// while the key of the channel that owns the sample is off.
    pub fn write_direct(&mut self, index: usize, value: u8)
        requires
            old(self).wf(),
        ensures
            final(self)@ == old(self)@.write_direct(index as int, value),
            final(self).wf(),
    {
        if index < PSG_REG_COUNT {
            self.regs[index] = value;
            self.write_register(index, value);
        } else {
            self.write_wave_ram(index - PSG_REG_COUNT, value);
        }
    }

    /// Reads address `index` of the register file. The state stays as it is.
    pub fn read_direct(&mut self, index: usize) -> (value: u8)
        requires
            old(self).wf(),
        ensures
            value == old(self)@.read_direct(index as int),
            final(self)@ == old(self)@,
            final(self).wf(),
    {
        if index < PSG_REG_COUNT {
            self.regs[index]
        } else {
            let wave_index = index - PSG_REG_COUNT;
            self.waveform_ram[wave_index % PSG_WAVE_RAM_SIZE]
        }
    }

    /// Reads the status byte. The state stays as it is.
    pub fn read_status(&mut self) -> (status: u8)
        ensures
            status == old(self)@.read_status(),
            final(self)@ == old(self)@,
    {
        if self.irq_pending {
            PSG_STATUS_IRQ
        } else {
            0
        }
    }

    /// Applies what a write of `value` to register `index` does besides
    /// storing the byte.
    fn write_register(&mut self, index: usize, value: u8)
        requires
            old(self).wf(),
            index < PSG_REG_COUNT,
        ensures
            final(self)@ == old(self)@.write_register(index as int, value),
            final(self).wf(),
    {
        proof {
            lemma_byte_fields(value);
        }
        let ch = self.current_channel;
        if index == PSG_REG_CH_SELECT {
            let mut selected = (value & 0x07) as usize;
            if selected >= PSG_CHANNEL_COUNT {
                selected = PSG_CHANNEL_COUNT - 1;
            }
            self.current_channel = selected;
        } else if index == PSG_REG_MAIN_BALANCE {
            self.main_balance = value;
        } else if index == PSG_REG_FREQ_LO {
            let frequency = (self.channels[ch].frequency & 0x0F00) | value as u16;
            proof {
                lemma_frequency_low(self.channels[ch as int].frequency, value);
            }
            self.channels[ch].frequency = frequency;
            self.channels[ch].phase_step = phase_step_for_period(frequency);
        } else if index == PSG_REG_FREQ_HI {
            let frequency = (self.channels[ch].frequency & 0x00FF) | (((value & 0x0F) as u16) << 8);
            proof {
                lemma_frequency_high(self.channels[ch as int].frequency, value);
            }
            self.channels[ch].frequency = frequency;
            self.channels[ch].phase_step = phase_step_for_period(frequency);
        } else if index == PSG_REG_CH_CONTROL {
            let previous = self.channels[ch].control;
            proof {
                lemma_byte_fields(previous);
            }
            self.channels[ch].control = value;
            if previous & PSG_CH_CTRL_DDA != 0 && value & PSG_CH_CTRL_DDA == 0 {
                self.channels[ch].wave_write_pos = 0;
                self.channels[ch].wave_pos = 0;
            }
            if previous & PSG_CH_CTRL_KEY_ON == 0 && value & PSG_CH_CTRL_KEY_ON != 0 {
                self.channels[ch].phase = 0;
                self.channels[ch].wave_pos = self.channels[ch].wave_write_pos;
                self.channels[ch].noise_phase = 0;
                self.channels[ch].noise_lfsr = 1;
            }
        } else if index == PSG_REG_CH_BALANCE {
            self.channels[ch].balance = value;
        } else if index == PSG_REG_WAVE_DATA {
            let sample = value & 0x1F;
            let control = self.channels[ch].control;
            proof {
                lemma_byte_fields(control);
            }
            if control & PSG_CH_CTRL_DDA != 0 {
                self.channels[ch].dda_sample = sample;
            }
            if control & PSG_CH_CTRL_KEY_ON == 0 {
                let write_pos = self.channels[ch].wave_write_pos;
                proof {
                    lemma_byte_fields((write_pos + 1) as u8);
                }
                self.waveform_ram[ch * PSG_WAVE_SIZE + write_pos as usize] = sample;
                self.channels[ch].wave_write_pos = write_pos.wrapping_add(1) & 0x1F;
            }
        } else if index == PSG_REG_NOISE_CTRL {
            if ch >= 4 {
                self.channels[ch].noise_control = value;
            }
        } else if index == PSG_REG_LFO_FREQ {
            self.lfo_frequency = value;
        } else if index == PSG_REG_LFO_CTRL {
            self.lfo_control = value;
        } else if index == PSG_REG_TIMER_LO || index == PSG_REG_TIMER_HI {
            self.accumulator = 0;
        } else if index == PSG_REG_TIMER_CTRL {
            if value & PSG_CTRL_ENABLE == 0 {
                self.irq_pending = false;
            }
        }
    }

    /// The period of the timer in cycles.
    pub fn timer_period(&self) -> (period: u16)
        ensures
            period == self@.timer_period(),
            period < 0x2000,
    {
        let lo = self.regs[PSG_REG_TIMER_LO] as u16;
        let hi = (self.regs[PSG_REG_TIMER_HI] & 0x1F) as u16;
        proof {
            lemma_timer_period(self.regs[PSG_REG_TIMER_LO as int], self.regs[PSG_REG_TIMER_HI as int]);
        }
        (hi << 8) | lo
    }

    /// The timer counts.
    pub fn enabled(&self) -> (enabled: bool)
        ensures
            enabled == self@.timer_enabled(),
    {
        let ctrl = self.regs[PSG_REG_TIMER_CTRL];
        proof {
            lemma_byte_fields(ctrl);
        }
        self.timer_period() != 0 && (ctrl & PSG_CTRL_ENABLE != 0)
    }

    /// Lets `cycles` cycles pass for the timer and says whether it raised its
    /// interrupt.
    pub fn tick(&mut self, cycles: u32) -> (fired: bool)
        requires
            old(self).wf(),
        ensures
            final(self)@ == old(self)@.tick(cycles),
            fired == old(self)@.tick_fires(cycles),
            final(self).wf(),
    {
        if !self.enabled() {
            return false;
        }
        if self.irq_pending {
            return false;
        }
        self.accumulator = self.accumulator.saturating_add(cycles);
        let period = self.timer_period() as u32;
        if self.accumulator >= period {
            self.accumulator %= period;
            let ctrl = self.regs[PSG_REG_TIMER_CTRL];
            proof {
                lemma_byte_fields(ctrl);
            }
            if ctrl & PSG_CTRL_IRQ_ENABLE != 0 {
                self.irq_pending = true;
                return true;
            }
        }
        false
    }

    /// Acknowledges the timer interrupt.
    pub fn acknowledge(&mut self)
        requires
            old(self).wf(),
        ensures
            final(self)@ == old(self)@.acknowledge(),
            final(self).wf(),
    {
        self.irq_pending = false;
    }

    /// Stores the low 5 bits of `value` in waveform memory at `addr`, which
    /// wraps at the size of the memory, unless the key of the channel that
    /// owns the sample is on.
    fn write_wave_ram(&mut self, addr: usize, value: u8)
        requires
            old(self).wf(),
        ensures
            final(self)@ == old(self)@.write_wave_ram(addr as int, value),
            final(self).wf(),
    {
        let index = addr % PSG_WAVE_RAM_SIZE;
        let control = self.channels[index / PSG_WAVE_SIZE].control;
        proof {
            lemma_byte_fields(value);
            lemma_byte_fields(control);
        }
        if control & PSG_CH_CTRL_KEY_ON == 0 {
            self.waveform_ram[index] = value & 0x1F;
        }
    }

    /// The main balance register.
    pub fn main_balance(&self) -> (value: u8)
        ensures
            value == self@.main_balance,
    {
        self.main_balance
    }

    /// The six channels.
    pub fn channels(&self) -> (channels: [PsgChannel; PSG_CHANNEL_COUNT])
        ensures
            channels@ == self@.channels,
    {
        self.channels
    }

    /// Waveform memory.
    pub fn waveform_ram(&self) -> (samples: [u8; PSG_WAVE_RAM_SIZE])
        ensures
            samples@ == self@.waveform_ram,
    {
        self.waveform_ram
    }
}

} // verus!
