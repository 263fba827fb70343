//! The complete state of the sound generator as a plain record, for saving
//! and restoring it.

use super::channel::PsgChannel;
use super::model::PsgView;
use super::tables::{PSG_CHANNEL_COUNT, PSG_REG_COUNT, PSG_WAVE_RAM_SIZE};
use super::Psg;
use vstd::prelude::*;

verus! {

/// Every field of the sound generator. A record may hold any values; only a
/// well-formed one can be loaded.
#[derive(Clone, Copy, Debug, PartialEq, Eq)]
pub struct PsgState {
    /// Last byte written to each of the 32 registers.
    pub regs: [u8; PSG_REG_COUNT],
    /// Address latch of the data port.
    pub select: u8,
    /// Channel that the channel registers address.
    pub current_channel: usize,
    /// Main balance register.
    pub main_balance: u8,
    /// LFO frequency register.
    pub lfo_frequency: u8,
    /// LFO control register.
    pub lfo_control: u8,
    /// Cycles counted toward the next timer period.
    pub accumulator: u32,
    /// The timer interrupt is asserted.
    pub irq_pending: bool,
    /// The six channels.
    pub channels: [PsgChannel; PSG_CHANNEL_COUNT],
    /// Waveforms of the six channels.
    pub waveform_ram: [u8; PSG_WAVE_RAM_SIZE],
}

impl View for PsgState {
    type V = PsgView;

    open spec fn view(&self) -> PsgView {
        PsgView {
            regs: self.regs@,
            select: self.select,
            current_channel: self.current_channel as nat,
            main_balance: self.main_balance,
            lfo_frequency: self.lfo_frequency,
            lfo_control: self.lfo_control,
            accumulator: self.accumulator as nat,
            irq_pending: self.irq_pending,
            channels: self.channels@,
            waveform_ram: self.waveform_ram@,
        }
    }
}

impl PsgState {
    /// Tests whether the record is well-formed.
    pub fn is_valid(&self) -> (valid: bool)
        ensures
            valid == self@.wf(),
    {
        if self.current_channel >= PSG_CHANNEL_COUNT {
            return false;
        }
        let mut index: usize = 0;
        while index < PSG_CHANNEL_COUNT
            invariant
                index <= 6,
                forall|i: int| 0 <= i < index ==> (#[trigger] self.channels@[i]).wf(),
            decreases 6 - index,
        {
            if !self.channels[index].is_valid() {
                return false;
            }
            index += 1;
        }
        let mut position: usize = 0;
        while position < PSG_WAVE_RAM_SIZE
            invariant
                position <= 192,
                forall|i: int| 0 <= i < position ==> #[trigger] self.waveform_ram@[i] < 32,
            decreases 192 - position,
        {
            if self.waveform_ram[position] >= 32 {
                return false;
            }
            position += 1;
        }
        true
    }
}

impl Psg {
    /// The state as a record.
    pub fn save_state(&self) -> (state: PsgState)
        ensures
            state@ == self@,
    {
        PsgState {
            regs: self.regs,
            select: self.select,
            current_channel: self.current_channel,
            main_balance: self.main_balance,
            lfo_frequency: self.lfo_frequency,
            lfo_control: self.lfo_control,
            accumulator: self.accumulator,
            irq_pending: self.irq_pending,
            channels: self.channels,
            waveform_ram: self.waveform_ram,
        }
    }

    /// A sound generator in the state of the record, if the record is
    /// well-formed.
    pub fn load_state(state: &PsgState) -> (loaded: Option<Psg>)
        ensures
            loaded is Some <==> state@.wf(),
            loaded matches Some(psg) ==> psg@ == state@ && psg.wf(),
    {
        if !state.is_valid() {
            return None;
        }
        Some(
            Psg {
                regs: state.regs,
                select: state.select,
                current_channel: state.current_channel,
                main_balance: state.main_balance,
                lfo_frequency: state.lfo_frequency,
                lfo_control: state.lfo_control,
                accumulator: state.accumulator,
                irq_pending: state.irq_pending,
                channels: state.channels,
                waveform_ram: state.waveform_ram,
            },
        )
    }
}

} // verus!
