use pce_psg::psg::noise::{lfsr_run, lfsr_step, noise_step_for, PSG_LFSR_LIMIT};
use pce_psg::psg::tables::{
    phase_step_for_period, phase_step_table, psg_balance_scale_tab, psg_db_table,
    AUDIO_SAMPLE_RATE, PSG_CLOCK_HZ, PSG_PHASE_STEP_MAX, PSG_PHASE_STEP_MIN,
};

#[test]
fn clock_constants() {
    assert_eq!(PSG_CLOCK_HZ, 3_579_545);
    assert_eq!(AUDIO_SAMPLE_RATE, 44_100);
}

#[test]
fn db_table_has_unity_and_silence_at_its_ends() {
    let table = psg_db_table();
    assert_eq!(table[0], 65536);
    assert_eq!(table[31], 0);
}

#[test]
fn db_table_halves_every_four_levels() {
    let table = psg_db_table();
    assert_eq!(table[4], 32768);
    assert_eq!(table[8], 16384);
    assert_eq!(table[12], 8192);
    assert_eq!(table[16], 4096);
    assert_eq!(table[20], 2048);
    assert_eq!(table[24], 1024);
    assert_eq!(table[28], 512);
}

#[test]
fn db_table_exact_entries() {
    let expected: [i32; 32] = [
        65536, 55109, 46341, 38968, 32768, 27554, 23170, 19484, 16384, 13777, 11585, 9742, 8192,
        6889, 5793, 4871, 4096, 3444, 2896, 2435, 2048, 1722, 1448, 1218, 1024, 861, 724, 609,
        512, 431, 362, 0,
    ];
    assert_eq!(psg_db_table(), expected);
}

#[test]
fn db_table_is_the_rounded_quarter_octave_gain() {
    let table = psg_db_table();
    for level in 0..31 {
        let gain = 65536.0 / f64::powf(2.0, 0.25 * level as f64);
        assert_eq!(table[level], gain.round() as i32, "level {}", level);
    }
}

#[test]
fn db_table_entries_are_nearest_by_integer_arithmetic() {
    let table = psg_db_table();
    let unity: u128 = 1 << 68;
    for level in 0..31u32 {
        let gain = table[level as usize] as u128;
        let below = (2 * gain - 1).pow(4) << level;
        let above = (2 * gain + 1).pow(4) << level;
        assert!(below <= unity && unity < above, "level {}", level);
    }
}

#[test]
fn balance_scale_exact_entries() {
    let expected: [u8; 16] = [0, 3, 5, 7, 9, 11, 13, 15, 17, 19, 21, 23, 25, 27, 29, 31];
    assert_eq!(psg_balance_scale_tab(), expected);
}

#[test]
fn phase_step_of_named_periods() {
    assert_eq!(phase_step_for_period(1), 332_467);
    assert_eq!(phase_step_for_period(2), 166_233);
    assert_eq!(phase_step_for_period(0x200), 649);
    assert_eq!(phase_step_for_period(0x0FFF), 81);
}

#[test]
fn phase_step_of_period_zero_is_that_of_4096() {
    assert_eq!(phase_step_for_period(0), 81);
    assert_eq!(
        phase_step_for_period(0) as u64,
        ((PSG_CLOCK_HZ as u64) << 12) / (4096 * AUDIO_SAMPLE_RATE as u64)
    );
}

#[test]
fn phase_step_uses_the_low_twelve_bits() {
    assert_eq!(phase_step_for_period(0x1200), phase_step_for_period(0x0200));
    assert_eq!(phase_step_for_period(0xF001), phase_step_for_period(0x0001));
    assert_eq!(phase_step_for_period(0x1000), phase_step_for_period(0));
}

#[test]
fn phase_step_follows_the_formula_for_every_period() {
    for period in 1..4096u64 {
        let expected = ((PSG_CLOCK_HZ as u64) << 12) / (period * AUDIO_SAMPLE_RATE as u64);
        assert_eq!(phase_step_for_period(period as u16) as u64, expected, "period {}", period);
    }
}

#[test]
fn phase_step_stays_within_its_bounds() {
    for period in 0..=u16::MAX {
        let step = phase_step_for_period(period);
        assert!(PSG_PHASE_STEP_MIN <= step && step <= PSG_PHASE_STEP_MAX);
    }
}

#[test]
fn phase_step_table_holds_every_period() {
    let table = phase_step_table();
    assert_eq!(table.len(), 4096);
    for period in 0..4096usize {
        assert_eq!(table[period], phase_step_for_period(period as u16));
    }
    assert_eq!(table[0], 81);
    assert_eq!(table[1], 332_467);
    assert_eq!(table[0x200], 649);
}

#[test]
fn noise_step_of_named_frequencies() {
    assert_eq!(noise_step_for(0x1F), 83_116);
    assert_eq!(noise_step_for(0x1E), 41_558);
    assert_eq!(noise_step_for(0x00), 1_340);
    assert_eq!(noise_step_for(0x05), 1_598);
}

#[test]
fn noise_step_ignores_the_enable_bit() {
    for nf in 0..32u8 {
        assert_eq!(noise_step_for(nf), noise_step_for(nf | 0x80));
        assert_eq!(noise_step_for(nf), noise_step_for(nf | 0x60));
    }
}

#[test]
fn noise_step_follows_the_formula_for_every_frequency() {
    for nf in 0..32u64 {
        let raw = 31 - nf;
        let period = if raw == 0 { 64 } else { raw * 128 };
        let expected = ((PSG_CLOCK_HZ as u64) << 16) / (period * AUDIO_SAMPLE_RATE as u64);
        assert_eq!(noise_step_for(nf as u8) as u64, expected, "nf {}", nf);
    }
}

#[test]
fn lfsr_first_shifts_from_one() {
    let expected: [u32; 10] = [
        0x20000, 0x30000, 0x38000, 0x3C000, 0x3E000, 0x3F000, 0x1F800, 0xFC00, 0x7E00, 0x3F00,
    ];
    let mut lfsr = 1;
    for value in expected {
        lfsr = lfsr_step(lfsr);
        assert_eq!(lfsr, value);
    }
}

#[test]
fn lfsr_restarts_at_one_from_zero() {
    assert_eq!(lfsr_step(0), 1);
}

#[test]
fn lfsr_never_reaches_zero() {
    let mut lfsr = 1;
    for _ in 0..300_000 {
        lfsr = lfsr_step(lfsr);
        assert!(lfsr != 0);
        assert!(lfsr < PSG_LFSR_LIMIT);
    }
}

#[test]
fn lfsr_never_reaches_zero_from_any_state() {
    for start in 0..PSG_LFSR_LIMIT {
        let next = lfsr_step(start);
        assert!(next != 0 && next < PSG_LFSR_LIMIT, "from {}", start);
    }
}

#[test]
fn lfsr_returns_to_one_after_its_cycle() {
    let mut lfsr = 1;
    let mut shifts = 0;
    loop {
        lfsr = lfsr_step(lfsr);
        shifts += 1;
        if lfsr == 1 {
            break;
        }
        assert!(shifts < 300_000);
    }
    assert_eq!(shifts, 131_071);
}

#[test]
fn lfsr_run_is_repeated_shifting() {
    let mut lfsr = 0x2A5A5;
    for steps in 0..20 {
        assert_eq!(lfsr_run(0x2A5A5, steps), lfsr);
        lfsr = lfsr_step(lfsr);
    }
    assert_eq!(lfsr_run(1, 0), 1);
    assert_eq!(lfsr_run(0, 0), 0);
    assert_eq!(lfsr_run(0, 1), 1);
}
