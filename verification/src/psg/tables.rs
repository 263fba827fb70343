//! Clock constants, register numbers and the lookup tables of the chip.

use vstd::arithmetic::div_mod::lemma_div_denominator;
use vstd::arithmetic::mul::lemma_mul_inequality;
use vstd::arithmetic::power2::{lemma2_to64, pow2};
use vstd::prelude::*;

verus! {

/// Clock that drives the tone and noise dividers, in hertz.
pub const PSG_CLOCK_HZ: u32 = 7_159_090 / 2;

/// Rate at which output samples are produced, in hertz.
pub const AUDIO_SAMPLE_RATE: u32 = 44_100;

pub const PSG_REG_COUNT: usize = 32;

pub const PSG_CHANNEL_COUNT: usize = 6;

pub const PSG_WAVE_SIZE: usize = 32;

/// Size of waveform memory: one waveform for each channel.
pub const PSG_WAVE_RAM_SIZE: usize = 192;

pub const PSG_REG_CH_SELECT: usize = 0x00;

pub const PSG_REG_MAIN_BALANCE: usize = 0x01;

pub const PSG_REG_FREQ_LO: usize = 0x02;

pub const PSG_REG_FREQ_HI: usize = 0x03;

pub const PSG_REG_CH_CONTROL: usize = 0x04;

pub const PSG_REG_CH_BALANCE: usize = 0x05;

pub const PSG_REG_WAVE_DATA: usize = 0x06;

pub const PSG_REG_NOISE_CTRL: usize = 0x07;

pub const PSG_REG_LFO_FREQ: usize = 0x08;

pub const PSG_REG_LFO_CTRL: usize = 0x09;

pub const PSG_REG_TIMER_LO: usize = 0x18;

pub const PSG_REG_TIMER_HI: usize = 0x19;

pub const PSG_REG_TIMER_CTRL: usize = 0x1A;

pub const PSG_CTRL_ENABLE: u8 = 0x01;

pub const PSG_CTRL_IRQ_ENABLE: u8 = 0x02;

pub const PSG_STATUS_IRQ: u8 = 0x80;

pub const PSG_CH_CTRL_VOLUME_MASK: u8 = 0x1F;

pub const PSG_CH_CTRL_DDA: u8 = 0x40;

pub const PSG_CH_CTRL_KEY_ON: u8 = 0x80;

pub const PSG_NOISE_ENABLE: u8 = 0x80;

pub const PSG_NOISE_FREQ_MASK: u8 = 0x1F;

/// Fractional bits of a channel's phase accumulator.
pub const PSG_PHASE_FRAC_BITS: u32 = 12;

pub const PSG_PHASE_FRAC_MASK: u32 = 0x0FFF;

/// Number of tone periods: the frequency register is 12 bits wide.
pub const PSG_PERIOD_ENTRIES: usize = 0x1000;

/// Gain applied to the sum of the six channels before the 16 fractional bits
/// of the mix are dropped. Six channels at full swing then stay inside the
/// range of a signed 16-bit sample.
pub const PSG_OUTPUT_GAIN: i32 = 340;

/// Largest phase increment per sample, reached at period 1.
pub const PSG_PHASE_STEP_MAX: u32 = 332_467;

/// Smallest phase increment per sample, reached at the longest periods.
pub const PSG_PHASE_STEP_MIN: u32 = 81;

/// Linear gain of each attenuation level, with 16 fractional bits: level 0 is
/// unity, each level lowers the output by a quarter octave (about 1.5 dB),
/// and level 31 is silence.
pub open spec fn db_gain_table() -> Seq<int> {
    seq![
        65536, 55109, 46341, 38968, 32768, 27554, 23170, 19484,
        16384, 13777, 11585, 9742, 8192, 6889, 5793, 4871,
        4096, 3444, 2896, 2435, 2048, 1722, 1448, 1218,
        1024, 861, 724, 609, 512, 431, 362, 0,
    ]
}

/// Linear gain of attenuation level `level`, with 16 fractional bits.
pub open spec fn db_gain(level: int) -> int {
    db_gain_table()[level]
}

pub open spec fn fourth_power(x: int) -> int {
    x * x * x * x
}

/// `gain` is the integer nearest to `65536 / 2^(level / 4)`.
///
/// Nearest means `gain - 1/2 <= 65536 / 2^(level / 4) < gain + 1/2`. Doubling
/// all three and raising them to the fourth power clears the root:
/// `(2 gain - 1)^4 * 2^level <= 2^68 < (2 gain + 1)^4 * 2^level`.
pub open spec fn is_nearest_gain(level: nat, gain: int) -> bool {
    brackets_unity(gain, pow2(level) as int)
}

/// `(2 gain - 1)^4 * scale <= 2^68 < (2 gain + 1)^4 * scale`, for a gain of
/// at least 1.
pub open spec fn brackets_unity(gain: int, scale: int) -> bool {
    &&& gain >= 1
    &&& fourth_power(2 * gain - 1) * scale <= 0x10_0000_0000_0000_0000
    &&& 0x10_0000_0000_0000_0000 < fourth_power(2 * gain + 1) * scale
}

/// Loudness step of a 4-bit balance code on the 5-bit volume scale: code 0 is
/// silent, code `n > 0` maps to `2n + 1`, never above 31.
pub open spec fn balance_scale(code: int) -> int {
    if code == 0 {
        0
    } else if 2 * code + 1 > 31 {
        31
    } else {
        2 * code + 1
    }
}

/// Phase increment per output sample for a tone period, with 12 fractional
/// bits: the sound clock, scaled by 4096, over the sample rate and over the
/// period. Period 0 counts as 4096.
pub open spec fn phase_step(period: int) -> int {
    if period == 0 {
        14_661_816_320int / 44_100 / 4096
    } else {
        14_661_816_320int / 44_100 / period
    }
}

/// `phase_step` divides the scaled sound clock by the period times the
/// sample rate. Dividing by one after the other gives the same whole number.
pub proof fn lemma_phase_step_formula(period: int)
    requires
        0 <= period < 4096,
    ensures
        phase_step(period) == (PSG_CLOCK_HZ * 4096) / ((if period == 0 {
            4096
        } else {
            period
        }) * AUDIO_SAMPLE_RATE),
{
    let divider = if period == 0 { 4096 } else { period };
    lemma_div_denominator(14_661_816_320, 44_100, divider);
}

/// Every entry of the gain table below silence is the rounded value of
/// `65536 / 2^(level / 4)`.
pub proof fn lemma_db_gain_nearest(level: nat)
    requires
        level < 31,
    ensures
        is_nearest_gain(level, db_gain(level as int)),
{
    lemma2_to64();
    if level == 0 {
        assert(brackets_unity(65536, 1)) by (nonlinear_arith);
    } else if level == 1 {
        assert(brackets_unity(55109, 2)) by (nonlinear_arith);
    } else if level == 2 {
        assert(brackets_unity(46341, 4)) by (nonlinear_arith);
    } else if level == 3 {
        assert(brackets_unity(38968, 8)) by (nonlinear_arith);
    } else if level == 4 {
        assert(brackets_unity(32768, 16)) by (nonlinear_arith);
    } else if level == 5 {
        assert(brackets_unity(27554, 32)) by (nonlinear_arith);
    } else if level == 6 {
        assert(brackets_unity(23170, 64)) by (nonlinear_arith);
    } else if level == 7 {
        assert(brackets_unity(19484, 128)) by (nonlinear_arith);
    } else if level == 8 {
        assert(brackets_unity(16384, 256)) by (nonlinear_arith);
    } else if level == 9 {
        assert(brackets_unity(13777, 512)) by (nonlinear_arith);
    } else if level == 10 {
        assert(brackets_unity(11585, 1024)) by (nonlinear_arith);
    } else if level == 11 {
        assert(brackets_unity(9742, 2048)) by (nonlinear_arith);
    } else if level == 12 {
        assert(brackets_unity(8192, 4096)) by (nonlinear_arith);
    } else if level == 13 {
        assert(brackets_unity(6889, 8192)) by (nonlinear_arith);
    } else if level == 14 {
        assert(brackets_unity(5793, 16384)) by (nonlinear_arith);
    } else if level == 15 {
        assert(brackets_unity(4871, 32768)) by (nonlinear_arith);
    } else if level == 16 {
        assert(brackets_unity(4096, 65536)) by (nonlinear_arith);
    } else if level == 17 {
        assert(brackets_unity(3444, 131072)) by (nonlinear_arith);
    } else if level == 18 {
        assert(brackets_unity(2896, 262144)) by (nonlinear_arith);
    } else if level == 19 {
        assert(brackets_unity(2435, 524288)) by (nonlinear_arith);
    } else if level == 20 {
        assert(brackets_unity(2048, 1048576)) by (nonlinear_arith);
    } else if level == 21 {
        assert(brackets_unity(1722, 2097152)) by (nonlinear_arith);
    } else if level == 22 {
        assert(brackets_unity(1448, 4194304)) by (nonlinear_arith);
    } else if level == 23 {
        assert(brackets_unity(1218, 8388608)) by (nonlinear_arith);
    } else if level == 24 {
        assert(brackets_unity(1024, 16777216)) by (nonlinear_arith);
    } else if level == 25 {
        assert(brackets_unity(861, 33554432)) by (nonlinear_arith);
    } else if level == 26 {
        assert(brackets_unity(724, 67108864)) by (nonlinear_arith);
    } else if level == 27 {
        assert(brackets_unity(609, 134217728)) by (nonlinear_arith);
    } else if level == 28 {
        assert(brackets_unity(512, 268435456)) by (nonlinear_arith);
    } else if level == 29 {
        assert(brackets_unity(431, 536870912)) by (nonlinear_arith);
    } else if level == 30 {
        assert(brackets_unity(362, 1073741824)) by (nonlinear_arith);
    }
}

/// No other integer is nearest: the gain of a level is determined by
/// `is_nearest_gain`.
pub proof fn lemma_nearest_gain_unique(level: nat, a: int, b: int)
    requires
        is_nearest_gain(level, a),
        is_nearest_gain(level, b),
    ensures
        a == b,
{
    let scale = pow2(level) as int;
    if a > b {
        lemma_fourth_power_increases(2 * b + 1, 2 * a - 1);
        lemma_mul_inequality(fourth_power(2 * b + 1), fourth_power(2 * a - 1), scale);
    }
    if b > a {
        lemma_fourth_power_increases(2 * a + 1, 2 * b - 1);
        lemma_mul_inequality(fourth_power(2 * a + 1), fourth_power(2 * b - 1), scale);
    }
}

proof fn lemma_fourth_power_increases(x: int, y: int)
    by (nonlinear_arith)
    requires
        0 <= x <= y,
    ensures
        fourth_power(x) <= fourth_power(y),
{
}

/// The gain table, indexed by attenuation level.
pub fn psg_db_table() -> (table: [i32; 32])
    ensures
        forall|level: int| 0 <= level < 32 ==> #[trigger] table@[level] == db_gain(level),
{
    [
        65536, 55109, 46341, 38968, 32768, 27554, 23170, 19484,
        16384, 13777, 11585, 9742, 8192, 6889, 5793, 4871,
        4096, 3444, 2896, 2435, 2048, 1722, 1448, 1218,
        1024, 861, 724, 609, 512, 431, 362, 0,
    ]
}

/// The balance scale as a table indexed by the 4-bit balance code.
pub fn psg_balance_scale_tab() -> (table: [u8; 16])
    ensures
        forall|code: int| 0 <= code < 16 ==> #[trigger] table@[code] == balance_scale(code),
{
    let mut table = [0u8; 16];
    let mut n: u8 = 1;
    while n < 16
        invariant
            1 <= n <= 16,
            table@[0] == 0,
            forall|k: int| 1 <= k < n ==> table@[k] == balance_scale(k),
        decreases 16 - n,
    {
        let scaled: u8 = n * 2 + 1;
        table[n as usize] = if scaled > 31 { 31 } else { scaled };
        n += 1;
    }
    table
}

/// Phase increment per output sample for the tone period in the low 12 bits
/// of `period`.
pub fn phase_step_for_period(period: u16) -> (step: u32)
    ensures
        step == phase_step(period as int % 4096),
        period < 4096 ==> step == phase_step(period as int),
        PSG_PHASE_STEP_MIN <= step <= PSG_PHASE_STEP_MAX,
{
    let index = period & 0x0FFF;
    assert(index == period % 4096) by (bit_vector)
        requires
            index == period & 0x0FFF,
    ;
    let divider: u64 = if index == 0 { 0x1000 } else { index as u64 };
    let scaled: u64 = (PSG_CLOCK_HZ as u64) << 12;
    assert(scaled == 14_661_816_320) by (bit_vector)
        requires
            scaled == 3_579_545u64 << 12,
    ;
    proof {
        lemma_phase_step_formula(index as int);
        lemma_phase_step_bounds(index as int);
    }
    (scaled / (divider * AUDIO_SAMPLE_RATE as u64)) as u32
}

/// The phase increment of every tone period.
pub fn phase_step_table() -> (table: [u32; PSG_PERIOD_ENTRIES])
    ensures
        forall|period: int| 0 <= period < 4096 ==> #[trigger] table@[period] == phase_step(period),
{
    let mut table = [1u32; PSG_PERIOD_ENTRIES];
    let mut period: u16 = 0;
    while period < 4096
        invariant
            period <= 4096,
            forall|k: int| 0 <= k < period ==> table@[k] == phase_step(k),
        decreases 4096 - period,
    {
        table[period as usize] = phase_step_for_period(period);
        period += 1;
    }
    table
}

/// The phase increment stays between its values at the longest and at the
/// shortest period.
pub proof fn lemma_phase_step_bounds(period: int)
    requires
        0 <= period < 4096,
    ensures
        PSG_PHASE_STEP_MIN <= phase_step(period) <= PSG_PHASE_STEP_MAX,
{
    let divider = if period == 0 { 4096 } else { period };
    lemma_quotient_bounds(divider);
}

proof fn lemma_quotient_bounds(divider: int)
    by (nonlinear_arith)
    requires
        1 <= divider <= 4096,
    ensures
        81 <= 332_467int / divider <= 332_467,
{
}

} // verus!
