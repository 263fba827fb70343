use pce_psg::psg::channel::PsgChannel;
use pce_psg::psg::state::PsgState;
use pce_psg::psg::tables::{
    PSG_REG_CH_CONTROL, PSG_REG_CH_SELECT, PSG_REG_FREQ_HI, PSG_REG_FREQ_LO, PSG_REG_NOISE_CTRL,
    PSG_REG_WAVE_DATA,
};
use pce_psg::psg::Psg;

fn played_state() -> PsgState {
    let mut psg = Psg::new();
    psg.write_address(0x44);
    psg.write_direct(PSG_REG_CH_SELECT, 4);
    for sample in 0..32u8 {
        psg.write_direct(PSG_REG_WAVE_DATA, sample);
    }
    psg.write_direct(PSG_REG_FREQ_LO, 0x23);
    psg.write_direct(PSG_REG_FREQ_HI, 0x01);
    psg.write_direct(PSG_REG_NOISE_CTRL, 0x9C);
    psg.write_direct(PSG_REG_CH_CONTROL, 0x9F);
    psg.write_direct(0x18, 200);
    psg.write_direct(0x1A, 0x03);
    psg.tick(77);
    for _ in 0..100 {
        psg.generate_sample();
    }
    psg.save_state()
}

#[test]
fn saved_state_of_a_new_generator_is_valid() {
    assert!(Psg::new().save_state().is_valid());
}

#[test]
fn saved_state_holds_every_field() {
    let state = played_state();
    assert!(state.is_valid());
    assert_eq!(state.select, 0x44);
    assert_eq!(state.current_channel, 4);
    assert_eq!(state.accumulator, 77);
    assert_eq!(state.regs[PSG_REG_FREQ_LO], 0x23);
    assert_eq!(state.regs[0x18], 200);
    assert_eq!(state.channels[4].frequency, 0x123);
    assert_eq!(state.channels[4].control, 0x9F);
    assert_eq!(state.waveform_ram[4 * 32 + 9], 9);
}

#[test]
fn loaded_state_continues_where_the_saved_one_stood() {
    let state = played_state();
    let mut loaded = Psg::load_state(&state).unwrap();
    let mut resumed = Psg::load_state(&loaded.save_state()).unwrap();
    assert_eq!(loaded.read_address(), 0x44);
    for _ in 0..500 {
        assert_eq!(loaded.generate_sample(), resumed.generate_sample());
    }
    assert_eq!(loaded.channels(), resumed.channels());
    assert!(loaded.tick(200));
    assert!(resumed.tick(200));
}

#[test]
fn loaded_state_saves_to_the_same_record() {
    let state = played_state();
    let again = Psg::load_state(&state).unwrap().save_state();
    assert_eq!(again, state);
    assert_eq!(again.regs, state.regs);
    assert_eq!(again.channels, state.channels);
    assert_eq!(again.waveform_ram, state.waveform_ram);
}

#[test]
fn load_refuses_a_channel_number_beyond_five() {
    let mut state = played_state();
    state.current_channel = 6;
    assert!(!state.is_valid());
    assert!(Psg::load_state(&state).is_none());
    state.current_channel = usize::MAX;
    assert!(Psg::load_state(&state).is_none());
    state.current_channel = 5;
    assert!(Psg::load_state(&state).is_some());
}

#[test]
fn load_refuses_a_waveform_sample_beyond_five_bits() {
    for index in [0usize, 100, 191] {
        let mut state = played_state();
        state.waveform_ram[index] = 32;
        assert!(!state.is_valid());
        assert!(Psg::load_state(&state).is_none());
        state.waveform_ram[index] = 31;
        assert!(Psg::load_state(&state).is_some());
    }
}

#[test]
fn load_refuses_a_noise_register_beyond_eighteen_bits() {
    for channel in 0..6usize {
        let mut state = played_state();
        state.channels[channel].noise_lfsr = 0x4_0000;
        assert!(Psg::load_state(&state).is_none());
        state.channels[channel].noise_lfsr = u32::MAX;
        assert!(Psg::load_state(&state).is_none());
        state.channels[channel].noise_lfsr = 0x3_FFFF;
        assert!(Psg::load_state(&state).is_some());
    }
}

#[test]
fn load_accepts_a_noise_register_of_zero() {
    for channel in 0..6usize {
        let mut state = played_state();
        state.channels[channel].noise_lfsr = 0;
        assert!(state.is_valid());
        assert!(Psg::load_state(&state).is_some());
    }
}

#[test]
fn noise_register_of_zero_is_healed_by_the_next_shift() {
    let mut state = Psg::new().save_state();
    state.channels[4].control = 0x80;
    state.channels[4].noise_control = 0x9F;
    state.channels[4].noise_lfsr = 0;
    state.channels[4].noise_phase = 0;
    let mut psg = Psg::load_state(&state).unwrap();
    psg.advance_waveforms();
    assert_eq!(psg.channels()[4].noise_lfsr, 1);
    assert_eq!(psg.channels()[4].noise_phase, 17_580);
    psg.advance_waveforms();
    assert_eq!(psg.channels()[4].noise_lfsr, 0x20000);
}

#[test]
fn noise_register_of_zero_stays_until_a_shift_is_made() {
    let mut state = Psg::new().save_state();
    state.channels[5].control = 0x80;
    state.channels[5].noise_control = 0x80;
    state.channels[5].noise_lfsr = 0;
    let mut psg = Psg::load_state(&state).unwrap();
    for sample in 1..=48u32 {
        psg.advance_waveforms();
        assert_eq!(psg.channels()[5].noise_lfsr, 0);
        assert_eq!(psg.channels()[5].noise_phase, sample * 1_340);
    }
    psg.advance_waveforms();
    assert_eq!(psg.channels()[5].noise_lfsr, 1);
}

#[test]
fn load_refuses_channel_fields_beyond_their_widths() {
    let mut state = played_state();
    state.channels[2].frequency = 0x1000;
    assert!(Psg::load_state(&state).is_none());

    let mut state = played_state();
    state.channels[2].phase = 0x1000;
    assert!(Psg::load_state(&state).is_none());

    let mut state = played_state();
    state.channels[2].wave_pos = 32;
    assert!(Psg::load_state(&state).is_none());

    let mut state = played_state();
    state.channels[2].wave_write_pos = 32;
    assert!(Psg::load_state(&state).is_none());

    let mut state = played_state();
    state.channels[2].dda_sample = 32;
    assert!(Psg::load_state(&state).is_none());

    let mut state = played_state();
    state.channels[2].noise_phase = 0x1_0000;
    assert!(Psg::load_state(&state).is_none());
}

#[test]
fn load_refuses_a_phase_step_that_is_not_the_one_of_the_frequency() {
    let mut state = played_state();
    assert_eq!(state.channels[4].frequency, 0x123);
    state.channels[4].phase_step += 1;
    assert!(Psg::load_state(&state).is_none());

    let mut state = played_state();
    assert_eq!(state.channels[0].frequency, 0);
    state.channels[0].phase_step = 81;
    assert!(Psg::load_state(&state).is_some());
    state.channels[0].phase_step = 1;
    assert!(Psg::load_state(&state).is_none());
    state.channels[0].phase_step = 82;
    assert!(Psg::load_state(&state).is_none());

    let mut state = played_state();
    state.channels[4].phase_step = 1;
    assert!(Psg::load_state(&state).is_none());
}

#[test]
fn load_accepts_any_register_bytes() {
    let mut state = played_state();
    state.regs = [0xFF; 32];
    state.select = 0xFF;
    state.main_balance = 0;
    state.lfo_frequency = 0xFF;
    state.lfo_control = 0xFF;
    state.accumulator = u32::MAX;
    state.irq_pending = true;
    let mut psg = Psg::load_state(&state).unwrap();
    assert_eq!(psg.read_status(), 0x80);
    assert_eq!(psg.read_address(), 0xFF);
}

#[test]
fn channel_validity_names_each_field() {
    let valid = PsgChannel::default();
    assert!(valid.is_valid());
    let mut channel = valid;
    channel.control = 0xFF;
    channel.balance = 0x00;
    channel.noise_control = 0xFF;
    channel.noise_lfsr = 0;
    assert!(channel.is_valid());
    channel.frequency = 0x0200;
    assert!(!channel.is_valid());
    channel.phase_step = 649;
    assert!(channel.is_valid());
    channel.frequency = 0x1200;
    assert!(!channel.is_valid());
}
