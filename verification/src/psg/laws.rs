//! What holds of the sound generator in every state: the invariant that all
//! operations keep, and the laws that relate one operation to another.

use super::channel::{dda_on, key_on, noise_on};
use super::model::{output_sample, PsgView};
use super::noise::{lemma_lfsr_never_zero, noise_step, PSG_LFSR_LIMIT};
use super::tables::{
    phase_step, PSG_REG_CH_CONTROL, PSG_REG_TIMER_CTRL, PSG_REG_WAVE_DATA, PSG_STATUS_IRQ,
};
use vstd::prelude::*;

verus! {

/// The power-on state is well-formed, its timer is off, it is silent, and
/// every channel has the phase increment of period 0, which counts as 4096.
pub proof fn lemma_initial_state(channel: int)
    requires
        0 <= channel < 6,
    ensures
        PsgView::initial().wf(),
        !PsgView::initial().timer_enabled(),
        !PsgView::initial().irq_pending,
        PsgView::initial().next_sample() == 0,
        PsgView::initial().channels[channel].phase_step == phase_step(0) == 81,
{
}

/// A register write keeps the state well-formed.
pub proof fn lemma_write_register_wf(s: PsgView, index: int, value: u8)
    requires
        s.wf(),
        0 <= index < 32,
    ensures
        s.write_register(index, value).wf(),
{
}

/// Every operation keeps the state well-formed.
pub proof fn lemma_operations_keep_wf(s: PsgView, index: int, value: u8, cycles: u32)
    requires
        s.wf(),
        0 <= index,
    ensures
        s.write_address(value).wf(),
        s.write_direct(index, value).wf(),
        s.write_data(value).wf(),
        s.read_data().wf(),
        s.tick(cycles).wf(),
        s.acknowledge().wf(),
        s.advance_waveforms().wf(),
{
    if s.select < 32 {
        lemma_write_register_wf(
            PsgView { regs: s.regs.update(s.select as int, value), ..s },
            s.select as int,
            value,
        );
    }
    s.lemma_advance_waveforms_wf();
}

/// A noise register that is not 0 is not 0 after any operation.
pub proof fn lemma_noise_register_never_zero(
    s: PsgView,
    index: int,
    value: u8,
    cycles: u32,
    channel: int,
)
    requires
        s.wf(),
        0 <= index,
        0 <= channel < 6,
        s.channels[channel].noise_lfsr != 0,
    ensures
        1 <= s.write_direct(index, value).channels[channel].noise_lfsr < PSG_LFSR_LIMIT,
        1 <= s.write_data(value).channels[channel].noise_lfsr < PSG_LFSR_LIMIT,
        1 <= s.tick(cycles).channels[channel].noise_lfsr < PSG_LFSR_LIMIT,
        1 <= s.advance_waveforms().channels[channel].noise_lfsr < PSG_LFSR_LIMIT,
{
    lemma_operations_keep_wf(s, index, value, cycles);
    let running = s.channels[channel];
    let total = running.noise_phase + noise_step(running.noise_control);
    lemma_lfsr_never_zero(running.noise_lfsr as int, (total / 0x1_0000) as nat);
}

/// A noise register at 0 heals: the sample in which a playing noise channel
/// shifts its register leaves it off 0, and at 1 if it shifts once.
pub proof fn lemma_noise_register_heals(s: PsgView, channel: int)
    requires
        s.wf(),
        4 <= channel < 6,
        s.channels[channel].is_running(),
        noise_on(s.channels[channel].noise_control),
        s.channels[channel].noise_phase + noise_step(s.channels[channel].noise_control)
            >= 0x1_0000,
    ensures
        1 <= s.advance_waveforms().channels[channel].noise_lfsr < PSG_LFSR_LIMIT,
        s.channels[channel].noise_lfsr == 0 && s.channels[channel].noise_phase + noise_step(
            s.channels[channel].noise_control,
        ) < 0x2_0000 ==> s.advance_waveforms().channels[channel].noise_lfsr == 1,
{
    let running = s.channels[channel];
    let total = running.noise_phase + noise_step(running.noise_control);
    lemma_lfsr_never_zero(running.noise_lfsr as int, (total / 0x1_0000) as nat);
}

/// Switching the key of a channel on leaves its noise register at 1, so
/// that from power-on no operation leads to a noise register at 0.
pub proof fn lemma_noise_register_starts_at_one(s: PsgView, value: u8, channel: int)
    requires
        s.wf(),
        0 <= channel < 6,
        !key_on(s.current().control),
        key_on(value),
    ensures
        PsgView::initial().channels[channel].noise_lfsr == 1,
        s.write_direct(PSG_REG_CH_CONTROL as int, value).current().noise_lfsr == 1,
{
}

/// While the key of the addressed channel is off, a sample written to the
/// waveform data register is read back from waveform memory at the write
/// position `position`, no other sample changes, and the write position
/// moves on by one.
pub proof fn lemma_wave_write_key_off(s: PsgView, position: int, value: u8)
    requires
        s.wf(),
        position == s.current().wave_write_pos,
        value < 32,
        !key_on(s.current().control),
    ensures
        ({
            let t = s.write_direct(PSG_REG_WAVE_DATA as int, value);
            let at = s.current_channel * 32 + position;
            &&& t.waveform_ram[at] == value
            &&& t.read_direct(32 + at) == value
            &&& forall|i: int| 0 <= i < 192 && i != at ==> t.waveform_ram[i] == s.waveform_ram[i]
            &&& t.current().wave_write_pos == (position + 1) % 32
        }),
{
}

/// While the key of the addressed channel is on, a write to the waveform
/// data register leaves waveform memory as it is.
pub proof fn lemma_wave_write_key_on(s: PsgView, value: u8)
    requires
        s.wf(),
        key_on(s.current().control),
    ensures
        s.write_direct(PSG_REG_WAVE_DATA as int, value).waveform_ram == s.waveform_ram,
        s.write_direct(PSG_REG_WAVE_DATA as int, value).current().wave_write_pos
            == s.current().wave_write_pos,
{
}

/// The state after `value` has been written to the waveform data register.
#[verifier::opaque]
pub open spec fn write_sample(s: PsgView, value: u8) -> PsgView {
    s.write_direct(PSG_REG_WAVE_DATA as int, value)
}

/// The state after the samples of `samples` have been written to the
/// waveform data register one after the other.
pub open spec fn upload_wave(s: PsgView, samples: Seq<u8>) -> PsgView
    decreases samples.len(),
{
    if samples.len() == 0 {
        s
    } else {
        write_sample(upload_wave(s, samples.drop_last()), samples.last())
    }
}

/// While the key of the addressed channel is off, up to 32 samples written
/// to the waveform data register fill its waveform from the write position
/// `start` on, wrapping at the end: sample `k` is read back from position
/// `(start + k) % 32`, and the write position has moved on by the number of
/// samples.
pub proof fn lemma_wave_upload(s: PsgView, samples: Seq<u8>, k: int)
    requires
        s.wf(),
        !key_on(s.current().control),
        samples.len() <= 32,
        0 <= k < samples.len(),
    ensures
        ({
            let t = upload_wave(s, samples);
            let base = s.current_channel * 32;
            let start = s.current().wave_write_pos as int;
            &&& t.wf()
            &&& t.waveform_ram[base + (start + k) % 32] == samples[k] % 32
            &&& t.read_direct(32 + base + (start + k) % 32) == samples[k] % 32
            &&& t.current().wave_write_pos == (start + samples.len()) % 32
        }),
{
    lemma_wave_upload_all(s, samples);
    assert(wave_slot(s, k) == s.current_channel * 32 + (s.current().wave_write_pos + k) % 32);
}

/// Where in waveform memory the sample `k` places after the write position
/// of the addressed channel is stored.
spec fn wave_slot(s: PsgView, k: int) -> int {
    s.current_channel * 32 + (s.current().wave_write_pos + k) % 32
}

/// The addressed channel with its key off, as an upload needs it.
spec fn ready_for_upload(s: PsgView) -> bool {
    s.wf() && !key_on(s.current().control)
}

proof fn lemma_wave_upload_all(s: PsgView, samples: Seq<u8>)
    requires
        ready_for_upload(s),
        samples.len() <= 32,
    ensures
        ready_for_upload(upload_wave(s, samples)),
        upload_wave(s, samples).waveform_ram.len() == 192,
        wave_slot(upload_wave(s, samples), 0) == wave_slot(s, samples.len() as int),
        forall|k: int|
            0 <= k < samples.len() ==> upload_wave(s, samples).waveform_ram[#[trigger] wave_slot(
                s,
                k,
            )] == samples[k] % 32,
    decreases samples.len(),
{
    if samples.len() > 0 {
        let front = samples.drop_last();
        let mid = upload_wave(s, front);
        let t = upload_wave(s, samples);
        lemma_wave_upload_all(s, front);
        lemma_wave_write_step(mid, samples.last());
        lemma_slot_moves_on(s, front.len() as int);
        assert forall|k: int| 0 <= k < samples.len() implies t.waveform_ram[#[trigger] wave_slot(
            s,
            k,
        )] == samples[k] % 32 by {
            if k < front.len() {
                lemma_slots_differ(s, k, front.len() as int);
                assert(front[k] == samples[k]);
            }
        }
    }
}

/// What one write to the waveform data register does while the key of the
/// addressed channel is off.
proof fn lemma_wave_write_step(s: PsgView, value: u8)
    requires
        ready_for_upload(s),
    ensures
        ready_for_upload(write_sample(s, value)),
        wave_slot(write_sample(s, value), 0) == wave_slot(s, 1),
        write_sample(s, value).waveform_ram == s.waveform_ram.update(
            wave_slot(s, 0),
            value % 32,
        ),
        0 <= wave_slot(s, 0) < 192,
        s.waveform_ram.len() == 192,
{
    reveal(write_sample);
}

/// Two of up to 32 samples in a row are stored in different places.
proof fn lemma_slots_differ(s: PsgView, j: int, k: int)
    requires
        0 <= j < k < 32,
    ensures
        wave_slot(s, j) != wave_slot(s, k),
{
}

/// Counting places from a later write position.
proof fn lemma_slot_moves_on(s: PsgView, count: int)
    requires
        0 <= count,
    ensures
        forall|t: PsgView|
            t.current_channel == s.current_channel && #[trigger] wave_slot(t, 0) == wave_slot(
                s,
                count,
            ) && t.current().wave_write_pos < 32 ==> wave_slot(t, 1) == wave_slot(s, count + 1),
{
}

/// A register reads back the byte written to it. Waveform memory reads
/// back the low 5 bits of it while the key of the channel that owns the
/// sample is off.
pub proof fn lemma_read_back(s: PsgView, index: int, value: u8)
    requires
        s.wf(),
        0 <= index,
        index >= 32 ==> !key_on(s.channels[PsgView::wave_owner(index - 32)].control),
    ensures
        index < 32 ==> s.write_direct(index, value).read_direct(index) == value,
        index >= 32 ==> s.write_direct(index, value).read_direct(index) == value % 32,
{
}

/// While the key of a channel is on, a write into its part of waveform
/// memory changes nothing, neither straight nor through the data port.
pub proof fn lemma_window_write_key_on(s: PsgView, index: int, value: u8)
    requires
        s.wf(),
        32 <= index,
        key_on(s.channels[PsgView::wave_owner(index - 32)].control),
    ensures
        s.write_direct(index, value) == s,
        s.select == index ==> s.write_data(value).waveform_ram == s.waveform_ram,
{
}

/// Waveform memory changes only while the key of the channel that owns the
/// changed sample is off: no write of any kind changes a sample of a
/// channel whose key is on.
pub proof fn lemma_waveform_kept_under_key_on(s: PsgView, index: int, value: u8, at: int)
    requires
        s.wf(),
        0 <= index,
        0 <= at < 192,
        key_on(s.channels[at / 32].control),
    ensures
        s.write_direct(index, value).waveform_ram[at] == s.waveform_ram[at],
        s.write_data(value).waveform_ram[at] == s.waveform_ram[at],
{
}

/// The registers keep their bytes until they are written: a write changes
/// the byte of its own register only, and no other operation changes any.
pub proof fn lemma_registers_persist(s: PsgView, index: int, value: u8, cycles: u32)
    requires
        s.wf(),
        0 <= index,
    ensures
        index < 32 ==> s.write_direct(index, value).regs == s.regs.update(index, value),
        index >= 32 ==> s.write_direct(index, value).regs == s.regs,
        s.write_address(value).regs == s.regs,
        s.read_data().regs == s.regs,
        s.tick(cycles).regs == s.regs,
        s.acknowledge().regs == s.regs,
        s.advance_waveforms().regs == s.regs,
{
    if index < 32 {
        lemma_write_register_keeps_latch(
            PsgView { regs: s.regs.update(index, value), ..s },
            index,
            value,
        );
    }
}

/// A write to the data port and a read from it go to the latched address
/// and move the latch on by one.
pub proof fn lemma_data_port(s: PsgView, value: u8)
    requires
        s.wf(),
    ensures
        s.write_data(value).read_direct(s.select as int) == s.write_direct(
            s.select as int,
            value,
        ).read_direct(s.select as int),
        s.write_data(value).select == (s.select + 1) % 256,
        s.read_data().select == (s.select + 1) % 256,
        s.read_data_value() == s.read_direct(s.select as int),
{
    if s.select < 32 {
        lemma_write_register_keeps_latch(
            PsgView { regs: s.regs.update(s.select as int, value), ..s },
            s.select as int,
            value,
        );
    }
}

/// A register write changes neither the registers' bytes nor the address
/// latch.
pub proof fn lemma_write_register_keeps_latch(s: PsgView, index: int, value: u8)
    ensures
        s.write_register(index, value).regs == s.regs,
        s.write_register(index, value).select == s.select,
{
}

/// Switching the key of the addressed channel on restarts its oscillators:
/// both phases are 0, the noise register is 1, and the waveform plays from
/// the write position.
pub proof fn lemma_key_on_restarts(s: PsgView, value: u8)
    requires
        s.wf(),
        !key_on(s.current().control),
        key_on(value),
    ensures
        ({
            let channel = s.write_direct(PSG_REG_CH_CONTROL as int, value).current();
            &&& channel.control == value
            &&& channel.phase == 0
            &&& channel.noise_phase == 0
            &&& channel.noise_lfsr == 1
            &&& channel.wave_pos == channel.wave_write_pos
        }),
{
}

/// An asserted timer interrupt stays asserted, and the timer stands still,
/// until the interrupt is acknowledged.
pub proof fn lemma_timer_interrupt_held(s: PsgView, cycles: u32)
    requires
        s.wf(),
        s.irq_pending,
    ensures
        s.tick(cycles) == s,
        !s.tick_fires(cycles),
        s.read_status() == PSG_STATUS_IRQ,
{
}

/// The timer interrupt is acknowledged by `acknowledge`, and by a write to
/// the timer control register with the enable bit clear.
pub proof fn lemma_timer_acknowledged(s: PsgView, value: u8)
    requires
        s.wf(),
        value % 2 == 0,
    ensures
        !s.acknowledge().irq_pending,
        s.acknowledge().read_status() == 0,
        !s.write_direct(PSG_REG_TIMER_CTRL as int, value).irq_pending,
{
}

/// The running timer raises its interrupt exactly when the cycles counted
/// reach the period and the interrupt is enabled; the interrupt is then
/// asserted, and the count left is less than a period.
pub proof fn lemma_timer_fires(s: PsgView, cycles: u32)
    requires
        s.wf(),
        s.timer_runs(),
    ensures
        s.tick_fires(cycles) <==> s.timer_irq_enabled() && s.cycles_counted(cycles)
            >= s.timer_period(),
        s.tick(cycles).irq_pending == s.tick_fires(cycles),
        s.period_ends(cycles) ==> s.tick(cycles).accumulator < s.timer_period(),
        !s.period_ends(cycles) ==> s.tick(cycles).accumulator == s.cycles_counted(cycles),
{
}

/// Cycles that end no period may be counted in one call or in two.
pub proof fn lemma_timer_counts_on(s: PsgView, first: u32, second: u32)
    requires
        s.wf(),
        s.accumulator + first + second < s.timer_period(),
    ensures
        s.tick(first).tick(second) == s.tick((first + second) as u32),
{
}

/// The gain and the width of the mix are matched: the output sample is the
/// scaled mix itself and is never cut off at the range of a 16-bit sample.
pub proof fn lemma_output_never_clamps(s: PsgView)
    requires
        s.wf(),
    ensures
        -32640 <= s.mix() * 340 / 0x1_0000 <= 30600,
        output_sample(s.mix()) == s.mix() * 340 / 0x1_0000,
{
    s.lemma_mix_range();
}

/// A channel whose key is off adds nothing to the mix, and with all keys
/// off the mix is silence.
pub proof fn lemma_silence(s: PsgView)
    requires
        s.wf(),
        forall|i: int| 0 <= i < 6 ==> !key_on((#[trigger] s.channels[i]).control),
    ensures
        s.mix() == 0,
        output_sample(s.mix()) == 0,
        s.next_sample() == 0,
{
    let t = s.advance_waveforms();
    assert forall|i: int| 0 <= i < 6 implies !key_on((#[trigger] t.channels[i]).control) by {
        assert(!key_on(s.channels[i].control));
    }
}

/// A channel that stands still, because its key is off or because it is in
/// direct-sample mode, is not changed by the oscillators.
pub proof fn lemma_halted_channel_stands(s: PsgView, channel: int)
    requires
        s.wf(),
        0 <= channel < 6,
        !key_on(s.channels[channel].control) || dda_on(s.channels[channel].control),
    ensures
        s.advance_waveforms().channels[channel] == s.channels[channel],
{
}

} // verus!
