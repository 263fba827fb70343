//! The noise source of channels 4 and 5: an 18-bit linear-feedback shift
//! register clocked from the noise frequency field.

use super::tables::{AUDIO_SAMPLE_RATE, PSG_CLOCK_HZ, PSG_NOISE_FREQ_MASK};
use vstd::arithmetic::div_mod::lemma_div_denominator;
use vstd::prelude::*;

verus! {

/// One past the largest value of the shift register, which has 18 bits.
pub const PSG_LFSR_LIMIT: u32 = 0x4_0000;

/// Period of the noise clock, in cycles of the sound clock, for a noise
/// control byte: the 5-bit frequency field `nf` gives `(31 - nf) * 128`, and
/// 64 where that is 0.
pub open spec fn noise_period(noise_control: u8) -> int {
    let raw = 31 - noise_control % 32;
    if raw == 0 {
        64
    } else {
        raw * 128
    }
}

/// Shifts of the register per output sample, with 16 fractional bits: the
/// sound clock, scaled by 65536, over the sample rate and over the noise
/// period.
pub open spec fn noise_step(noise_control: u8) -> int {
    let raw = 31 - noise_control % 32;
    if raw == 0 {
        234_589_061_120int / 44_100 / 64
    } else {
        234_589_061_120int / 44_100 / 128 / raw
    }
}

/// `noise_step` divides the scaled sound clock by the noise period times the
/// sample rate. Dividing by one after the other gives the same whole number.
pub proof fn lemma_noise_step_formula(noise_control: u8)
    ensures
        noise_step(noise_control) == (PSG_CLOCK_HZ * 0x1_0000) / (noise_period(noise_control)
            * AUDIO_SAMPLE_RATE),
{
    let raw = 31 - noise_control % 32;
    let period = noise_period(noise_control);
    lemma_div_denominator(234_589_061_120, 44_100, period);
    if raw != 0 {
        lemma_div_denominator(234_589_061_120int / 44_100, 128, raw);
    }
}

/// The bit of `lfsr` with the given weight, a power of two.
pub open spec fn lfsr_tap(lfsr: int, weight: int) -> int {
    lfsr / weight % 2
}

/// The bit shifted in at the top: the parity of taps 0, 1, 11, 12 and 17.
pub open spec fn lfsr_feedback(lfsr: int) -> int {
    (lfsr_tap(lfsr, 1) + lfsr_tap(lfsr, 2) + lfsr_tap(lfsr, 0x800) + lfsr_tap(lfsr, 0x1000)
        + lfsr_tap(lfsr, 0x2_0000)) % 2
}

/// The register after one shift. A register that would become 0, and would
/// then stay 0 for ever, restarts at 1.
pub open spec fn lfsr_next(lfsr: int) -> int {
    let shifted = lfsr / 2 + lfsr_feedback(lfsr) * 0x2_0000;
    if shifted == 0 {
        1
    } else {
        shifted
    }
}

/// The register after `steps` shifts.
pub open spec fn lfsr_advance(lfsr: int, steps: nat) -> int
    decreases steps,
{
    if steps == 0 {
        lfsr
    } else {
        lfsr_advance(lfsr_next(lfsr), (steps - 1) as nat)
    }
}

/// A shift never yields 0, and keeps the register within 18 bits.
pub proof fn lemma_lfsr_next_in_range(lfsr: int)
    requires
        0 <= lfsr < PSG_LFSR_LIMIT,
    ensures
        1 <= lfsr_next(lfsr) < PSG_LFSR_LIMIT,
{
}

/// From a register that is not 0 the shift itself never yields 0: the
/// restart at 1 is taken from 0 only.
pub proof fn lemma_lfsr_restart_only_from_zero(lfsr: int)
    requires
        1 <= lfsr < PSG_LFSR_LIMIT,
    ensures
        lfsr_next(lfsr) == lfsr / 2 + lfsr_feedback(lfsr) * 0x2_0000,
{
}

/// However many shifts are made, the register stays within 18 bits and is
/// never 0 afterwards, unless it was 0 and no shift was made: a register at
/// 0 is healed by its first shift.
pub proof fn lemma_lfsr_never_zero(lfsr: int, steps: nat)
    requires
        0 <= lfsr < PSG_LFSR_LIMIT,
    ensures
        0 <= lfsr_advance(lfsr, steps) < PSG_LFSR_LIMIT,
        lfsr != 0 || steps > 0 ==> 1 <= lfsr_advance(lfsr, steps),
        lfsr == 0 && steps == 1 ==> lfsr_advance(lfsr, steps) == 1,
    decreases steps,
{
    if steps > 0 {
        lemma_lfsr_never_zero(lfsr_next(lfsr), (steps - 1) as nat);
    }
}

/// The noise clock makes between 1340 and 83116 65536ths of a shift per
/// sample: at most two whole shifts fall into one sample.
pub proof fn lemma_noise_step_bounds(noise_control: u8)
    ensures
        1340 <= noise_step(noise_control) <= 83116,
{
    let raw = 31 - noise_control % 32;
    if raw != 0 {
        lemma_noise_quotient_bounds(raw);
    }
}

proof fn lemma_noise_quotient_bounds(raw: int)
    by (nonlinear_arith)
    requires
        1 <= raw <= 31,
    ensures
        1340 <= 41_558int / raw <= 41_558,
{
}

proof fn lemma_lfsr_shift(lfsr: u32)
    by (bit_vector)
    requires
        lfsr < 0x4_0000,
    ensures
        ({
            let feedback = ((lfsr >> 0) ^ (lfsr >> 1) ^ (lfsr >> 11) ^ (lfsr >> 12) ^ (lfsr >> 17))
                & 0x01;
            &&& feedback == (lfsr % 2 + lfsr / 2 % 2 + lfsr / 0x800 % 2 + lfsr / 0x1000 % 2 + lfsr
                / 0x2_0000 % 2) % 2
            &&& (lfsr >> 1) | (feedback << 17) == lfsr / 2 + feedback * 0x2_0000
            &&& (lfsr >> 1) | (feedback << 17) < 0x4_0000
        }),
{
}

/// Shifts of the register per output sample for a noise control byte, with
/// 16 fractional bits.
pub fn noise_step_for(noise_control: u8) -> (step: u32)
    ensures
        step == noise_step(noise_control),
        1340 <= step <= 83116,
{
    let nf = noise_control & PSG_NOISE_FREQ_MASK;
    assert(nf == noise_control % 32) by (bit_vector)
        requires
            nf == noise_control & 0x1F,
    ;
    let raw: u64 = 31 - nf as u64;
    let period: u64 = if raw == 0 { 64 } else { raw * 128 };
    let scaled: u64 = (PSG_CLOCK_HZ as u64) << 16;
    assert(scaled == 234_589_061_120) by (bit_vector)
        requires
            scaled == 3_579_545u64 << 16,
    ;
    proof {
        lemma_noise_step_formula(noise_control);
        lemma_noise_step_bounds(noise_control);
    }
    (scaled / (period * AUDIO_SAMPLE_RATE as u64)) as u32
}

/// One shift of the noise register.
pub fn lfsr_step(lfsr: u32) -> (next: u32)
    requires
        lfsr < PSG_LFSR_LIMIT,
    ensures
        next == lfsr_next(lfsr as int),
        1 <= next < PSG_LFSR_LIMIT,
{
    let feedback = ((lfsr >> 0) ^ (lfsr >> 1) ^ (lfsr >> 11) ^ (lfsr >> 12) ^ (lfsr >> 17)) & 0x01;
    let shifted = (lfsr >> 1) | (feedback << 17);
    proof {
        lemma_lfsr_shift(lfsr);
    }
    if shifted == 0 {
        1
    } else {
        shifted
    }
}

/// `steps` shifts of the noise register.
pub fn lfsr_run(lfsr: u32, steps: u32) -> (last: u32)
    requires
        lfsr < PSG_LFSR_LIMIT,
    ensures
        last == lfsr_advance(lfsr as int, steps as nat),
        last < PSG_LFSR_LIMIT,
        lfsr != 0 || steps > 0 ==> last != 0,
{
    let mut current = lfsr;
    let mut done: u32 = 0;
    while done < steps
        invariant
            done <= steps,
            current < PSG_LFSR_LIMIT,
            lfsr != 0 || done > 0 ==> current != 0,
            lfsr_advance(current as int, (steps - done) as nat) == lfsr_advance(
                lfsr as int,
                steps as nat,
            ),
        decreases steps - done,
    {
        current = lfsr_step(current);
        done += 1;
    }
    current
}

} // verus!
