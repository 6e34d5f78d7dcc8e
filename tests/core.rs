use chippy::{
    build_chip8, run_frame,
    decode_op, default_clock, pitch_rate, pretty_plane, Chip8, ConfigError, Fault, Instr, SyncModes, Target, MEM_SIZE,
    PROGRAM_START,
};

fn machine(target: Target, clock: u32, program: &[u8]) -> Chip8 {
    Chip8::new(target, clock, program.to_vec()).unwrap()
}

fn run_steps(c: &mut Chip8, n: usize) {
    for _ in 0..n {
        c.run_inst().unwrap();
    }
}

#[test]
fn zero_clock_is_rejected() {
    let r = Chip8::new(Target::XO, 0, vec![0x00, 0xE0]);
    assert_eq!(r.err(), Some(ConfigError::ZeroClock));
}

#[test]
fn oversized_program_is_rejected() {
    let len = MEM_SIZE - PROGRAM_START + 1;
    let r = Chip8::new(Target::XO, 10, vec![0; len]);
    assert_eq!(r.err(), Some(ConfigError::RomTooLarge { len }));
    assert!(Chip8::new(Target::XO, 10, vec![0; len - 1]).is_ok());
}

#[test]
fn fonts_and_program_are_loaded() {
    let c = machine(Target::Chip, 11, &[0x12, 0x34, 0x56]);
    assert_eq!(&c.mem[0..5], &[0xF0, 0x90, 0x90, 0x90, 0xF0]);
    assert_eq!(&c.mem[75..80], &[0xF0, 0x80, 0xF0, 0x80, 0x80]);
    assert_eq!(&c.mem[80..90], &[0xFF, 0xFF, 0xC3, 0xC3, 0xC3, 0xC3, 0xC3, 0xC3, 0xFF, 0xFF]);
    assert_eq!(&c.mem[0x200..0x204], &[0x12, 0x34, 0x56, 0x00]);
    assert_eq!(c.pc, 0x200);
    assert_eq!(c.mem.len(), MEM_SIZE);
}

#[test]
fn key_wait_resumes_on_release() {
    let mut c = machine(Target::Chip, 16, &[0xF5, 0x0A]);
    c.run_inst().unwrap();
    assert!(c.halting);
    c.press_key(5);
    c.run_inst().unwrap();
    assert!(c.halting);
    c.release_key(5);
    c.run_inst().unwrap();
    assert!(!c.halting);
    assert_eq!(c.v[5], 5);
    assert_eq!(c.pc, 0x202);
}

#[test]
fn add_sets_carry() {
    let mut c = machine(Target::Chip, 16, &[0x6A, 0xFF, 0x6B, 0x02, 0x8A, 0xB4]);
    run_steps(&mut c, 3);
    assert_eq!(c.v[0xA], 0x01);
    assert_eq!(c.v[0xF], 1);
    let mut c = machine(Target::Chip, 16, &[0x6A, 0x01, 0x6B, 0x02, 0x8A, 0xB4]);
    run_steps(&mut c, 3);
    assert_eq!(c.v[0xA], 0x03);
    assert_eq!(c.v[0xF], 0);
}

#[test]
fn sub_sets_no_borrow() {
    let mut c = machine(Target::Chip, 16, &[0x6A, 0x05, 0x6B, 0x07, 0x8A, 0xB5]);
    run_steps(&mut c, 3);
    assert_eq!(c.v[0xA], 0xFE);
    assert_eq!(c.v[0xF], 0);
    let mut c = machine(Target::Chip, 16, &[0x6A, 0x07, 0x6B, 0x05, 0x8A, 0xB5]);
    run_steps(&mut c, 3);
    assert_eq!(c.v[0xA], 0x02);
    assert_eq!(c.v[0xF], 1);
    let mut c = machine(Target::Chip, 16, &[0x6A, 0x05, 0x6B, 0x07, 0x8A, 0xB7]);
    run_steps(&mut c, 3);
    assert_eq!(c.v[0xA], 0x02);
    assert_eq!(c.v[0xF], 1);
}

#[test]
fn shift_operand_depends_on_variant() {
    let program = [0x6A, 0x01, 0x6B, 0x82, 0x8A, 0xB6];
    let mut c = machine(Target::Chip, 16, &program);
    run_steps(&mut c, 3);
    assert_eq!(c.v[0xA], 0x41);
    assert_eq!(c.v[0xF], 0);
    let mut c = machine(Target::SuperModern, 16, &program);
    run_steps(&mut c, 3);
    assert_eq!(c.v[0xA], 0x00);
    assert_eq!(c.v[0xF], 1);
    let mut c = machine(Target::XO, 16, &[0x6A, 0x01, 0x6B, 0x82, 0x8A, 0xBE]);
    run_steps(&mut c, 3);
    assert_eq!(c.v[0xA], 0x04);
    assert_eq!(c.v[0xF], 1);
}

#[test]
fn logic_clears_flag_on_original_only() {
    let program = [0x6F, 0x05, 0x6A, 0x01, 0x6B, 0x02, 0x8A, 0xB1];
    let mut c = machine(Target::Chip, 16, &program);
    run_steps(&mut c, 4);
    assert_eq!(c.v[0xA], 0x03);
    assert_eq!(c.v[0xF], 0);
    let mut c = machine(Target::XO, 16, &program);
    run_steps(&mut c, 4);
    assert_eq!(c.v[0xA], 0x03);
    assert_eq!(c.v[0xF], 5);
}

#[test]
fn store_increments_index_by_variant() {
    let program = [0xA3, 0x00, 0x60, 0x01, 0x61, 0x02, 0xF1, 0x55];
    let mut c = machine(Target::Chip, 16, &program);
    run_steps(&mut c, 4);
    assert_eq!(&c.mem[0x300..0x302], &[1, 2]);
    assert_eq!(c.i, 0x302);
    let mut c = machine(Target::SuperModern, 16, &program);
    run_steps(&mut c, 4);
    assert_eq!(&c.mem[0x300..0x302], &[1, 2]);
    assert_eq!(c.i, 0x300);
    let mut c = machine(Target::XO, 16, &[0xA2, 0x00, 0xF1, 0x65]);
    run_steps(&mut c, 2);
    assert_eq!(c.v[0], 0xA2);
    assert_eq!(c.v[1], 0x00);
    assert_eq!(c.i, 0x202);
}

#[test]
fn jump_with_offset_by_variant() {
    let program = [0x60, 0x05, 0x62, 0x10, 0xB2, 0x00];
    let mut c = machine(Target::Chip, 16, &program);
    run_steps(&mut c, 3);
    assert_eq!(c.pc, 0x205);
    let mut c = machine(Target::SuperLegacy, 16, &program);
    run_steps(&mut c, 3);
    assert_eq!(c.pc, 0x210);
}

#[test]
fn drawing_twice_restores_rows() {
    let program = [0xA2, 0x0A, 0x60, 0x00, 0x61, 0x00, 0xD0, 0x11, 0xD0, 0x11, 0xF0];
    let mut c = machine(Target::SuperModern, 16, &program);
    run_steps(&mut c, 4);
    assert_eq!(c.active[0], 0xFu128 << 124);
    assert_eq!(c.v[0xF], 0);
    run_steps(&mut c, 1);
    assert_eq!(c.active[0], 0);
    assert_eq!(c.v[0xF], 1);
    assert!(c.active.iter().all(|r| *r == 0));
}

#[test]
fn draw_waits_for_frame_end_on_original() {
    let mut program = vec![0xA2, 0x0C, 0xD0, 0x11, 0x12, 0x04];
    program.resize(12, 0);
    program.push(0x80);
    let mut c = machine(Target::Chip, 8, &program);
    run_steps(&mut c, 2);
    assert!(c.halting);
    assert_eq!(c.active[0], 0);
    assert_eq!(c.pc, 0x204);
    c.run_frame().unwrap();
    assert!(!c.halting);
    assert_eq!(c.buffer_plane(0)[0], 1u128 << 127);
    assert_eq!(c.pc, 0x204);
}

#[test]
fn timers_stop_at_zero() {
    let program = [0x60, 0x02, 0xF0, 0x15, 0xF0, 0x18, 0x12, 0x06];
    let mut c = machine(Target::Chip, 4, &program);
    c.run_frame().unwrap();
    assert_eq!(c.delay, 1);
    assert_eq!(c.sound, 1);
    c.run_frame().unwrap();
    assert_eq!(c.delay, 0);
    assert_eq!(c.sound, 0);
    for _ in 0..5 {
        c.run_frame().unwrap();
        assert_eq!(c.delay, 0);
        assert_eq!(c.sound, 0);
    }
}

#[test]
fn extended_opcode_is_unsupported_on_original() {
    let mut c = machine(Target::Chip, 16, &[0xF0, 0x02]);
    assert_eq!(c.run_inst(), Err(Fault::UnsupportedOpcode { op: 0xF002, target: Target::Chip }));
    let mut c = machine(Target::XO, 16, &[0xF0, 0x02]);
    assert!(c.run_inst().is_ok());
    let mut c = machine(Target::Chip, 16, &[0x00, 0xFF]);
    assert_eq!(c.run_inst(), Err(Fault::UnsupportedOpcode { op: 0x00FF, target: Target::Chip }));
    let mut c = machine(Target::SuperModern, 16, &[0x00, 0xFF]);
    assert!(c.run_inst().is_ok());
    assert!(c.high_res);
}

#[test]
fn original_opcodes_decode_alike() {
    assert_eq!(decode_op(0x00FB, Target::Chip), None);
    assert_eq!(decode_op(0x00FB, Target::SuperLegacy), Some(Instr::ScrollRight));
    for t in [Target::Chip, Target::SuperModern, Target::SuperLegacy, Target::XO] {
        assert_eq!(decode_op(0xD125, t), Some(Instr::Draw { x: 1, y: 2, n: 5 }));
        assert_eq!(decode_op(0x8AB4, t), Some(Instr::Add { x: 0xA, y: 0xB }));
        assert_eq!(decode_op(0x5AB1, t), None);
    }
    assert_eq!(decode_op(0xF001, Target::XO), Some(Instr::SelectPlanes { x: 0 }));
    assert_eq!(decode_op(0xF000, Target::XO), Some(Instr::LongIndex));
}

#[test]
fn runs_are_deterministic() {
    let program = [0x60, 0x05, 0xF0, 0x29, 0x61, 0x03, 0xD1, 0x15, 0x71, 0x01, 0x12, 0x06];
    let mut a = machine(Target::XO, 16, &program);
    let mut b = machine(Target::XO, 16, &program);
    for _ in 0..3 {
        a.run_frame().unwrap();
        b.run_frame().unwrap();
    }
    assert_eq!(a.buffer_plane(0), b.buffer_plane(0));
    assert_eq!(a.buffer_plane(1), b.buffer_plane(1));
    assert!(a.buffer_plane(0).iter().any(|r| *r != 0));
}

#[test]
fn skip_steps_over_double_width_instruction() {
    let program = [0x60, 0x01, 0x30, 0x01, 0xF0, 0x00, 0x12, 0x34, 0x6A, 0x07];
    let mut c = machine(Target::XO, 16, &program);
    run_steps(&mut c, 3);
    assert_eq!(c.v[0xA], 7);
    assert_eq!(c.pc, 0x20A);
    let mut c = machine(Target::XO, 16, &[0xF0, 0x00, 0x12, 0x34]);
    run_steps(&mut c, 1);
    assert_eq!(c.i, 0x1234);
    assert_eq!(c.pc, 0x204);
}

#[test]
fn scroll_down_halves_in_legacy_low_res() {
    let mut c = machine(Target::SuperModern, 16, &[0x00, 0xC2]);
    c.active[0] = 1;
    run_steps(&mut c, 1);
    assert_eq!(c.active[0], 0);
    assert_eq!(c.active[2], 1);
    let mut c = machine(Target::SuperLegacy, 16, &[0x00, 0xC2]);
    c.active[0] = 1;
    run_steps(&mut c, 1);
    assert_eq!(c.active[1], 1);
    let mut c = machine(Target::SuperModern, 16, &[0x00, 0xFB, 0x00, 0xFC, 0x00, 0xFC]);
    c.active[3] = 0xF0u128 << 120;
    run_steps(&mut c, 1);
    assert_eq!(c.active[3], 0xF0u128 << 116);
    run_steps(&mut c, 1);
    assert_eq!(c.active[3], 0xF0u128 << 120);
    run_steps(&mut c, 1);
    assert_eq!(c.active[3], 0);
    let mut c = machine(Target::XO, 16, &[0x00, 0xD1]);
    c.active[5] = 9;
    run_steps(&mut c, 1);
    assert_eq!(c.active[4], 9);
    assert_eq!(c.active[5], 0);
}

#[test]
fn mode_switch_clears_except_legacy() {
    let mut c = machine(Target::SuperModern, 16, &[0x00, 0xFF]);
    c.active[0] = 7;
    run_steps(&mut c, 1);
    assert!(c.high_res);
    assert_eq!(c.active[0], 0);
    let mut c = machine(Target::SuperLegacy, 16, &[0x00, 0xFF, 0x00, 0xFE]);
    c.active[0] = 7;
    run_steps(&mut c, 1);
    assert!(c.high_res);
    assert_eq!(c.active[0], 7);
    run_steps(&mut c, 1);
    assert!(!c.high_res);
}

#[test]
fn bcd_digits() {
    let mut c = machine(Target::Chip, 16, &[0x6A, 0x7B, 0xA3, 0x00, 0xFA, 0x33]);
    run_steps(&mut c, 3);
    assert_eq!(&c.mem[0x300..0x303], &[1, 2, 3]);
}

#[test]
fn call_and_return() {
    let program = [0x22, 0x06, 0x6A, 0x01, 0x12, 0x04, 0x00, 0xEE];
    let mut c = machine(Target::Chip, 16, &program);
    run_steps(&mut c, 1);
    assert_eq!(c.pc, 0x206);
    assert_eq!(c.sp, 1);
    assert_eq!(c.stack[0], 0x202);
    run_steps(&mut c, 2);
    assert_eq!(c.v[0xA], 1);
    assert_eq!(c.sp, 0);
}

#[test]
fn faults_are_reported() {
    let mut c = machine(Target::Chip, 16, &[0x00, 0xEE]);
    assert_eq!(c.run_inst(), Err(Fault::StackUnderflow));
    let mut c = machine(Target::Chip, 16, &[0x6A, 0x20, 0xEA, 0x9E]);
    run_steps(&mut c, 1);
    assert_eq!(c.run_inst(), Err(Fault::BadKey { key: 0x20 }));
    let mut c = machine(Target::XO, 16, &[0xF0, 0x00, 0xFF, 0xFE, 0xF2, 0x33]);
    run_steps(&mut c, 1);
    assert_eq!(c.run_inst(), Err(Fault::OutOfBounds { addr: 0xFFFE }));
    let mut c = machine(Target::Chip, 16, &[0x22, 0x00]);
    run_steps(&mut c, 16);
    assert_eq!(c.run_inst(), Err(Fault::StackOverflow));
}

#[test]
fn random_byte_is_masked() {
    let mut c = machine(Target::Chip, 16, &[0xC3, 0xF0]);
    assert_eq!(c.step_with(0xAB), Ok(false));
    assert_eq!(c.v[3], 0xA0);
    let mut c = machine(Target::Chip, 16, &[0xC3, 0x00]);
    c.run_inst().unwrap();
    assert_eq!(c.v[3], 0);
}

#[test]
fn pretty_plane_marks_pixels() {
    let mut plane = vec![0u128; 64];
    plane[0] = 1u128 << 127;
    plane[1] = 1;
    let text = pretty_plane(&plane);
    let lines: Vec<&str> = text.split('\n').collect();
    assert_eq!(lines.len(), 65);
    assert_eq!(lines[0], format!("▮{}", "▯".repeat(127)));
    assert_eq!(lines[1], format!("{}▮", "▯".repeat(127)));
    assert_eq!(lines[2], "▯".repeat(128));
    assert_eq!(lines[64], "");
}

#[test]
fn frame_uses_palette() {
    let mut c = machine(Target::XO, 16, &[]);
    c.high_res = true;
    c.buffer[0] = 1u128 << 127;
    c.buffer[64] = (1u128 << 127) | (1u128 << 126);
    c.buffer[65] = 1u128 << 127;
    let mut frame = vec![0u8; 4 * 128 * 64];
    c.draw(&mut frame);
    assert_eq!(&frame[0..4], &[0x99, 0x66, 0x00, 0xff]);
    assert_eq!(&frame[4..8], &[0xff, 0x66, 0x00, 0xff]);
    assert_eq!(&frame[8..12], &[0x66, 0x22, 0x00, 0xff]);
    assert_eq!(&frame[4 * 128..4 * 128 + 4], &[0xff, 0x66, 0x00, 0xff]);
    c.high_res = false;
    c.buffer[0] = 1u128 << 127;
    c.buffer[64] = 0;
    c.draw(&mut frame);
    assert_eq!(&frame[0..4], &[0xff, 0xcc, 0x00, 0xff]);
    assert_eq!(&frame[4..8], &[0xff, 0xcc, 0x00, 0xff]);
    assert_eq!(&frame[8..12], &[0x66, 0x22, 0x00, 0xff]);
    assert_eq!(&frame[4 * 128..4 * 128 + 4], &[0xff, 0xcc, 0x00, 0xff]);
}

#[test]
fn samples_follow_sound_timer() {
    let mut c = machine(Target::XO, 1, &[0x6A, 0x10, 0xFA, 0x18, 0x12, 0x04]);
    c.set_sample_rate(60);
    c.set_num_output_channels(2);
    assert_eq!(c.run_inst(), Ok(true));
    assert_eq!(c.run_inst(), Ok(true));
    assert_eq!(c.get_sample_queue_length(), 4);
    assert_eq!(c.get_sample(), 0);
    assert_eq!(c.get_sample(), 0);
    assert_eq!(c.get_sample(), 1);
    assert_eq!(c.get_sample(), 1);
    assert_eq!(c.get_sample_queue_length(), 0);
    assert_eq!(c.get_sample(), 0);
    assert_eq!(c.sound, 15);
}

#[test]
fn no_samples_before_output_is_set() {
    let mut c = machine(Target::XO, 1, &[0x12, 0x00]);
    assert_eq!(c.run_inst(), Ok(false));
    assert_eq!(c.get_sample_queue_length(), 0);
}

#[test]
fn pitch_maps_exponentially() {
    assert_eq!(pitch_rate(64), 4_000_000);
    assert_eq!(pitch_rate(112), 8_000_000);
    assert_eq!(pitch_rate(16), 2_000_000);
    assert_eq!(pitch_rate(0), 1_587_401);
    assert_eq!(pitch_rate(255), 1_971_326 * 32);
}

#[test]
fn clock_defaults_by_variant() {
    assert_eq!(default_clock(Target::Chip, 0), 11);
    assert_eq!(default_clock(Target::SuperModern, 0), 30);
    assert_eq!(default_clock(Target::SuperLegacy, 0), 30);
    assert_eq!(default_clock(Target::XO, 0), 1000);
    assert_eq!(default_clock(Target::Chip, 7), 7);
    assert_eq!(Target::default(), Target::XO);
}

#[test]
fn audio_pacing_steps_until_a_sample() {
    let mut c = machine(Target::XO, 1, &[0x6A, 0x10, 0xFA, 0x18, 0x12, 0x04]);
    c.set_sample_rate(30);
    c.set_num_output_channels(1);
    assert_eq!(c.next_sample(SyncModes::AudioCallback), Ok(1));
    assert_eq!(c.pc, 0x204);
    assert_eq!(c.get_sample_queue_length(), 0);
    assert_eq!(c.sound, 15);
}

#[test]
fn audio_pacing_takes_a_waiting_sample_first() {
    let mut c = machine(Target::XO, 1, &[0x12, 0x00]);
    c.set_sample_rate(60);
    c.set_num_output_channels(2);
    c.run_inst().unwrap();
    assert_eq!(c.get_sample_queue_length(), 2);
    let pc = c.pc;
    assert_eq!(c.next_sample(SyncModes::AudioCallback), Ok(0));
    assert_eq!(c.get_sample_queue_length(), 1);
    assert_eq!(c.pc, pc);
}

#[test]
fn display_pacing_drains_samples() {
    let mut c = machine(Target::XO, 1, &[0x12, 0x00]);
    c.set_sample_rate(60);
    c.set_num_output_channels(2);
    c.run_inst().unwrap();
    c.run_inst().unwrap();
    assert_eq!(c.get_sample_queue_length(), 4);
    assert_eq!(c.next_sample(SyncModes::VSync), Ok(0));
    assert_eq!(c.get_sample_queue_length(), 0);
}

#[test]
fn free_functions_build_and_run() {
    assert_eq!(build_chip8(Target::Chip, 0, vec![]).err(), Some(ConfigError::ZeroClock));
    let mut c = build_chip8(Target::Chip, 3, vec![0x60, 0x2A, 0x12, 0x02]).unwrap();
    run_frame(&mut c).unwrap();
    assert_eq!(c.v[0], 0x2A);
    assert_eq!(c.remaining, 3);
    assert_eq!(c.pc, 0x202);
}

#[test]
fn wide_sprite_in_high_res() {
    let mut program = vec![0x00, 0xFF, 0xA2, 0x0A, 0x60, 0x00, 0x61, 0x00, 0xD0, 0x10, 0xFF, 0xFF, 0x80, 0x01];
    program.resize(10 + 32, 0);
    let mut c = machine(Target::SuperModern, 16, &program);
    run_steps(&mut c, 5);
    assert_eq!(c.active[0], 0xFFFFu128 << 112);
    assert_eq!(c.active[1], 0x8001u128 << 112);
    assert_eq!(c.active[2], 0);
    assert_eq!(c.v[0xF], 0);
}

#[test]
fn last_plane_sets_collision_flag() {
    let program = [
        0xF1, 0x01, 0xA2, 0x10, 0x60, 0x00, 0xD0, 0x01, 0xF3, 0x01, 0xD0, 0x01, 0x12, 0x0C, 0x00, 0x00, 0xF0, 0x0F,
    ];
    let mut c = machine(Target::XO, 16, &program);
    run_steps(&mut c, 4);
    assert_eq!(c.active[0], 0xF0u128 << 120);
    assert_eq!(c.active[64], 0);
    run_steps(&mut c, 2);
    assert_eq!(c.active[0], 0);
    assert_eq!(c.active[64], 0x0Fu128 << 120);
    assert_eq!(c.v[0xF], 0);
}

#[test]
fn columns_wrap_only_on_xo() {
    let program = [0x60, 0x3C, 0x61, 0x00, 0xA2, 0x0A, 0xD0, 0x11, 0x12, 0x08, 0xFF];
    let mut c = machine(Target::XO, 16, &program);
    run_steps(&mut c, 4);
    assert_eq!(c.active[0], (0xFu128 << 124) | (0xFu128 << 64));
    let mut c = machine(Target::SuperModern, 16, &program);
    run_steps(&mut c, 4);
    assert_eq!(c.active[0], 0xFu128 << 64);
}

#[test]
fn rows_wrap_only_on_xo() {
    let program = [0x60, 0x00, 0x61, 0x1F, 0xA2, 0x0A, 0xD0, 0x12, 0x12, 0x08, 0x80, 0x80];
    let mut c = machine(Target::XO, 16, &program);
    run_steps(&mut c, 4);
    assert_eq!(c.active[31], 1u128 << 127);
    assert_eq!(c.active[0], 1u128 << 127);
    let mut c = machine(Target::SuperModern, 16, &program);
    run_steps(&mut c, 4);
    assert_eq!(c.active[31], 1u128 << 127);
    assert_eq!(c.active[0], 0);
    assert_eq!(c.active[32], 0);
}

#[test]
fn subtracting_a_register_from_itself_sets_no_borrow() {
    let mut c = machine(Target::Chip, 16, &[0x61, 0x05, 0x81, 0x17]);
    run_steps(&mut c, 2);
    assert_eq!(c.v[1], 0);
    assert_eq!(c.v[0xF], 1);
    let mut c = machine(Target::Chip, 16, &[0x61, 0x05, 0x81, 0x15]);
    run_steps(&mut c, 2);
    assert_eq!(c.v[1], 0);
    assert_eq!(c.v[0xF], 1);
}
