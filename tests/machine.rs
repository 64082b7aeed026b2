use chip8::chip8::{released_key, Chip8};
use chip8::emulator::{Config, Emulator};
use chip8::instruction::Instruction;
use chip8::machine::Chip8Error;
use chip8::opcode::Opcode;

const NO_KEYS: [bool; 16] = [false; 16];

fn machine(program: &[u8]) -> Chip8 {
    Chip8::new(program, 0, false).unwrap()
}

fn run(m: &mut Chip8) -> Result<(), Chip8Error> {
    m.step(false, &NO_KEYS, &NO_KEYS, 0)
}

#[test]
fn opcode_splits_nibbles_and_fields() {
    let op = Opcode::from_slice(&[0xD1, 0x23]);
    assert_eq!(op, Opcode { n0: 0xD, n1: 0x1, n2: 0x2, n3: 0x3, addr: 0x123, byte: 0x23 });
}

#[test]
fn decode_table_entries() {
    let dec = |b0: u8, b1: u8| Instruction::decode(&Opcode::from_slice(&[b0, b1]));
    assert_eq!(dec(0x00, 0xE0), Some(Instruction::Cls));
    assert_eq!(dec(0x00, 0xEE), Some(Instruction::Ret));
    assert_eq!(dec(0x8A, 0xBE), Some(Instruction::Shl { x: 0xA, y: 0xB }));
    assert_eq!(dec(0xD1, 0x25), Some(Instruction::Draw { x: 1, y: 2, n: 5 }));
    assert_eq!(dec(0xF3, 0x0A), Some(Instruction::WaitKey { x: 3 }));
    assert_eq!(dec(0x51, 0x21), None);
    assert_eq!(dec(0xE1, 0x00), None);
}

#[test]
fn new_machine_layout() {
    let m = machine(&[0x12, 0x34]);
    assert_eq!(m.pc, 0x200);
    assert_eq!(m.memory.len(), 4096);
    assert_eq!(m.memory[0x200], 0x12);
    assert_eq!(m.memory[0x201], 0x34);
    assert_eq!(m.memory[0x202], 0);
    assert_eq!(&m.memory[0x050..0x055], &[0xF0, 0x90, 0x90, 0x90, 0xF0]);
    assert_eq!(&m.memory[0x09B..0x0A0], &[0xF0, 0x80, 0xF0, 0x80, 0x80]);
    assert_eq!(m.memory[0x0A0], 0);
    assert!(m.display.iter().all(|r| *r == 0));
    assert!(m.v.iter().all(|r| *r == 0));
    assert!(m.stack.is_empty());
}

#[test]
fn add_sets_carry_iff_overflow() {
    let mut m = machine(&[0x81, 0x24, 0x83, 0x44]);
    m.v[1] = 200;
    m.v[2] = 100;
    m.v[3] = 100;
    m.v[4] = 155;
    run(&mut m).unwrap();
    assert_eq!(m.v[1], 44);
    assert_eq!(m.v[0xF], 1);
    run(&mut m).unwrap();
    assert_eq!(m.v[3], 255);
    assert_eq!(m.v[0xF], 0);
}

#[test]
fn add_byte_wraps_without_flag() {
    let mut m = machine(&[0x71, 0x10]);
    m.v[1] = 0xF8;
    m.v[0xF] = 7;
    run(&mut m).unwrap();
    assert_eq!(m.v[1], 0x08);
    assert_eq!(m.v[0xF], 7);
}

#[test]
fn sub_flag_is_no_borrow() {
    let mut m = machine(&[0x81, 0x25, 0x83, 0x45, 0x85, 0x67]);
    m.v[1] = 7;
    m.v[2] = 7;
    m.v[3] = 3;
    m.v[4] = 5;
    m.v[5] = 10;
    m.v[6] = 4;
    run(&mut m).unwrap();
    assert_eq!(m.v[1], 0);
    assert_eq!(m.v[0xF], 1);
    run(&mut m).unwrap();
    assert_eq!(m.v[3], 254);
    assert_eq!(m.v[0xF], 0);
    run(&mut m).unwrap();
    assert_eq!(m.v[5], 250);
    assert_eq!(m.v[0xF], 0);
}

#[test]
fn shifts_read_from_vy() {
    let mut m = machine(&[0x81, 0x26, 0x83, 0x4E]);
    m.v[1] = 0xFF;
    m.v[2] = 0x03;
    m.v[3] = 0x00;
    m.v[4] = 0x81;
    run(&mut m).unwrap();
    assert_eq!(m.v[1], 0x01);
    assert_eq!(m.v[2], 0x03);
    assert_eq!(m.v[0xF], 1);
    run(&mut m).unwrap();
    assert_eq!(m.v[3], 0x02);
    assert_eq!(m.v[0xF], 1);
}

#[test]
fn logic_ops_follow_profile() {
    let mut m = machine(&[0x81, 0x21, 0x81, 0x22]);
    m.v[1] = 0x0C;
    m.v[2] = 0x0A;
    m.v[0xF] = 9;
    m.step(false, &NO_KEYS, &NO_KEYS, 0).unwrap();
    assert_eq!(m.v[1], 0x0E);
    assert_eq!(m.v[0xF], 9);
    m.step(true, &NO_KEYS, &NO_KEYS, 0).unwrap();
    assert_eq!(m.v[1], 0x0A);
    assert_eq!(m.v[0xF], 0);
}

#[test]
fn draw_twice_clears_and_collides() {
    let mut m = machine(&[0xA3, 0x00, 0xD1, 0x21, 0xD1, 0x21]);
    m.memory[0x300] = 0xFF;
    m.v[1] = 60;
    m.v[2] = 5;
    run(&mut m).unwrap();
    run(&mut m).unwrap();
    assert_eq!(m.display[5], 0x0F);
    assert_eq!(m.v[0xF], 0);
    run(&mut m).unwrap();
    assert_eq!(m.display[5], 0);
    assert_eq!(m.v[0xF], 1);
}

#[test]
fn draw_places_sprite_at_column() {
    let mut m = machine(&[0xA3, 0x00, 0xD1, 0x22]);
    m.memory[0x300] = 0xF0;
    m.memory[0x301] = 0x81;
    m.v[1] = 64 + 4;
    m.v[2] = 32 + 1;
    run(&mut m).unwrap();
    run(&mut m).unwrap();
    assert_eq!(m.display[1], 0x0F00_0000_0000_0000);
    assert_eq!(m.display[2], 0x0810_0000_0000_0000);
    assert_eq!(m.v[0xF], 0);
}

#[test]
fn draw_clips_at_bottom_edge() {
    let mut m = machine(&[0xA3, 0x00, 0xD1, 0x24]);
    m.memory[0x300] = 0xFF;
    m.memory[0x301] = 0xFF;
    m.memory[0x302] = 0xFF;
    m.memory[0x303] = 0xFF;
    m.v[1] = 0;
    m.v[2] = 31;
    run(&mut m).unwrap();
    run(&mut m).unwrap();
    assert_eq!(m.display[31], 0xFF00_0000_0000_0000);
    for r in 0..31 {
        assert_eq!(m.display[r], 0);
    }
}

#[test]
fn draw_collision_accumulates_over_rows() {
    let mut m = machine(&[0xA3, 0x00, 0xD1, 0x22]);
    m.memory[0x300] = 0x80;
    m.memory[0x301] = 0x80;
    m.display[0] = 0x8000_0000_0000_0000;
    run(&mut m).unwrap();
    run(&mut m).unwrap();
    assert_eq!(m.display[0], 0);
    assert_eq!(m.display[1], 0x8000_0000_0000_0000);
    assert_eq!(m.v[0xF], 1);
}

#[test]
fn wait_key_advances_on_release() {
    let mut m = machine(&[0xF5, 0x0A]);
    let mut prev = [false; 16];
    prev[3] = true;
    m.step(false, &NO_KEYS, &prev, 0).unwrap();
    assert_eq!(m.v[5], 3);
    assert_eq!(m.pc, 0x202);
}

#[test]
fn wait_key_spins_on_press() {
    let mut m = machine(&[0xF5, 0x0A]);
    let mut now = [false; 16];
    now[3] = true;
    m.step(false, &now, &NO_KEYS, 0).unwrap();
    assert_eq!(m.v[5], 0);
    assert_eq!(m.pc, 0x200);
}

#[test]
fn released_key_picks_lowest() {
    let mut prev = [false; 16];
    prev[9] = true;
    prev[4] = true;
    assert_eq!(released_key(&prev, &NO_KEYS), Some(4));
    assert_eq!(released_key(&prev, &prev), None);
}

#[test]
fn ret_on_empty_stack_underflows() {
    let mut m = machine(&[0x00, 0xEE]);
    assert_eq!(run(&mut m), Err(Chip8Error::StackUnderflow));
    assert_eq!(m.pc, 0x200);
}

#[test]
fn call_and_return() {
    let mut m = machine(&[0x23, 0x00]);
    m.memory[0x300] = 0x00;
    m.memory[0x301] = 0xEE;
    run(&mut m).unwrap();
    assert_eq!(m.pc, 0x300);
    assert_eq!(m.stack, vec![0x202]);
    run(&mut m).unwrap();
    assert_eq!(m.pc, 0x202);
    assert!(m.stack.is_empty());
}

#[test]
fn skips_and_jumps() {
    let mut m = machine(&[0x31, 0x05, 0x00, 0x00, 0x41, 0x05, 0xB3, 0x00]);
    m.v[1] = 5;
    m.v[0] = 0x10;
    run(&mut m).unwrap();
    assert_eq!(m.pc, 0x204);
    run(&mut m).unwrap();
    assert_eq!(m.pc, 0x206);
    run(&mut m).unwrap();
    assert_eq!(m.pc, 0x310);
}

#[test]
fn key_skips_use_current_keys() {
    let mut m = machine(&[0xE1, 0x9E, 0x00, 0x00, 0xE1, 0xA1]);
    m.v[1] = 0x17;
    let mut now = [false; 16];
    now[7] = true;
    m.step(false, &now, &NO_KEYS, 0).unwrap();
    assert_eq!(m.pc, 0x204);
    m.step(false, &now, &NO_KEYS, 0).unwrap();
    assert_eq!(m.pc, 0x206);
}

#[test]
fn random_masks_byte() {
    let mut m = machine(&[0xC2, 0x0F]);
    m.step(false, &NO_KEYS, &NO_KEYS, 0xAB).unwrap();
    assert_eq!(m.v[2], 0x0B);
}

#[test]
fn index_add_flags_past_address_space() {
    let mut m = machine(&[0xAF, 0xFE, 0xF1, 0x1E, 0xF1, 0x1E]);
    m.v[1] = 1;
    run(&mut m).unwrap();
    run(&mut m).unwrap();
    assert_eq!(m.i, 0xFFF);
    assert_eq!(m.v[0xF], 0);
    run(&mut m).unwrap();
    assert_eq!(m.i, 0x1000);
    assert_eq!(m.v[0xF], 1);
}

#[test]
fn font_address_of_digit() {
    let mut m = machine(&[0xF1, 0x29, 0xF2, 0x29]);
    m.v[1] = 0x1A;
    m.v[2] = 0x0F;
    run(&mut m).unwrap();
    assert_eq!(m.i, 0x050 + 5 * 0xA);
    run(&mut m).unwrap();
    assert_eq!(m.i, 0x09B);
}

#[test]
fn bcd_digits() {
    let mut m = machine(&[0xA3, 0x00, 0xF1, 0x33]);
    m.v[1] = 254;
    run(&mut m).unwrap();
    run(&mut m).unwrap();
    assert_eq!(&m.memory[0x300..0x303], &[2, 5, 4]);
}

#[test]
fn store_and_load_registers() {
    let mut m = machine(&[0xA3, 0x00, 0xF2, 0x55, 0x60, 0x00, 0x61, 0x00, 0xF1, 0x65]);
    m.v[0] = 11;
    m.v[1] = 22;
    m.v[2] = 33;
    m.v[3] = 44;
    run(&mut m).unwrap();
    run(&mut m).unwrap();
    assert_eq!(&m.memory[0x300..0x304], &[11, 22, 33, 0]);
    run(&mut m).unwrap();
    run(&mut m).unwrap();
    run(&mut m).unwrap();
    assert_eq!(&m.v[0..4], &[11, 22, 33, 44]);
    assert_eq!(m.i, 0x300);
}

#[test]
fn timer_registers() {
    let mut m = machine(&[0xF1, 0x15, 0xF2, 0x18, 0xF3, 0x07]);
    m.v[1] = 9;
    m.v[2] = 4;
    run(&mut m).unwrap();
    run(&mut m).unwrap();
    run(&mut m).unwrap();
    assert_eq!(m.delay, 9);
    assert_eq!(m.sound, 4);
    assert_eq!(m.v[3], 9);
}

#[test]
fn clear_screen() {
    let mut m = machine(&[0x00, 0xE0]);
    m.display[3] = 0xFFFF;
    run(&mut m).unwrap();
    assert!(m.display.iter().all(|r| *r == 0));
}

#[test]
fn unknown_opcode_is_reported() {
    let mut m = machine(&[0x51, 0x23]);
    let op = Opcode { n0: 5, n1: 1, n2: 2, n3: 3, addr: 0x123, byte: 0x23 };
    assert_eq!(run(&mut m), Err(Chip8Error::UnknownOpcode(op)));
}

#[test]
fn access_past_memory_is_a_violation() {
    let mut m = machine(&[0xAF, 0xFE, 0xF2, 0x55, 0xF1, 0x55, 0xF0, 0x33]);
    run(&mut m).unwrap();
    assert_eq!(run(&mut m), Err(Chip8Error::MemoryAccessViolation));
    assert_eq!(m.pc, 0x202);
    m.pc = 0x204;
    run(&mut m).unwrap();
    assert_eq!(&m.memory[0xFFE..0x1000], &[0, 0]);
    assert_eq!(run(&mut m), Err(Chip8Error::MemoryAccessViolation));
    m.pc = 0xFFF;
    assert_eq!(run(&mut m), Err(Chip8Error::MemoryAccessViolation));
}

#[test]
fn rom_fills_program_region_exactly() {
    let rom = vec![0xAB; 3584];
    let m = Chip8::new(&rom, 0, false).unwrap();
    assert_eq!(m.memory[0xFFF], 0xAB);
    let rom = vec![0xAB; 3585];
    assert_eq!(
        Chip8::new(&rom, 0, false).err(),
        Some(Chip8Error::RomTooLarge { size: 3585, capacity: 3584 })
    );
    let m = Chip8::new(&rom, 0, true).unwrap();
    assert_eq!(m.memory[0xFFF], 0xAB);
}

#[test]
fn reserved_tail_bounds_program() {
    let cfg = Config::legacy();
    assert_eq!(cfg.program_capacity(), 3232);
    let rom = vec![1u8; 4000];
    let e = Emulator::new(&rom, cfg).unwrap();
    assert_eq!(e.machine.memory[0x200 + 3231], 1);
    assert_eq!(e.machine.memory[0x200 + 3232], 0);
    assert_eq!(
        Emulator::new(&rom, Config::modern()).err(),
        Some(Chip8Error::RomTooLarge { size: 4000, capacity: 3584 })
    );
}

#[test]
fn timers_count_once_per_tick() {
    for cfg in [Config::modern(), Config::legacy()] {
        let mut e = Emulator::new(&[0x12, 0x00], cfg).unwrap();
        e.machine.delay = 5;
        e.machine.sound = 1;
        let report = e.tick_with([false; 16], &vec![0; cfg.instructions_per_tick as usize]).unwrap();
        assert!(report.audible);
        assert_eq!(e.machine.delay, 4);
        assert_eq!(e.machine.sound, 0);
        let report = e.tick([false; 16]).unwrap();
        assert!(!report.audible);
        assert_eq!(e.machine.delay, 3);
        assert_eq!(e.machine.sound, 0);
    }
}

#[test]
fn tick_runs_configured_instruction_count() {
    let mut program = Vec::new();
    for _ in 0..20 {
        program.extend_from_slice(&[0x71, 0x01]);
    }
    let mut e = Emulator::new(&program, Config::legacy()).unwrap();
    e.tick([false; 16]).unwrap();
    assert_eq!(e.machine.v[1], 12);
    let mut e = Emulator::new(&program, Config::modern()).unwrap();
    e.tick([false; 16]).unwrap();
    assert_eq!(e.machine.v[1], 1);
}

#[test]
fn tick_remembers_keys_for_wait() {
    let mut e = Emulator::new(&[0xF4, 0x0A, 0x12, 0x02], Config::modern()).unwrap();
    let mut held = [false; 16];
    held[3] = true;
    e.tick(held).unwrap();
    assert_eq!(e.machine.pc, 0x200);
    e.tick([false; 16]).unwrap();
    assert_eq!(e.machine.pc, 0x202);
    assert_eq!(e.machine.v[4], 3);
}

#[test]
fn tick_random_draw_is_masked() {
    let mut e = Emulator::new(&[0xC3, 0x00, 0xC4, 0x0F], Config::modern()).unwrap();
    e.machine.v[3] = 0x55;
    e.tick([false; 16]).unwrap();
    assert_eq!(e.machine.v[3], 0);
    e.tick([false; 16]).unwrap();
    assert!(e.machine.v[4] <= 0x0F);
}

#[test]
fn tick_reports_error() {
    let mut e = Emulator::new(&[0x00, 0xEE], Config::modern()).unwrap();
    assert_eq!(e.tick([false; 16]), Err(Chip8Error::StackUnderflow));
}

#[test]
fn shift_with_same_register() {
    let mut m = machine(&[0x81, 0x16, 0x82, 0x2E]);
    m.v[1] = 0x05;
    m.v[2] = 0x40;
    run(&mut m).unwrap();
    assert_eq!(m.v[1], 0x02);
    assert_eq!(m.v[0xF], 1);
    run(&mut m).unwrap();
    assert_eq!(m.v[2], 0x80);
    assert_eq!(m.v[0xF], 0);
}

#[test]
fn flag_register_as_destination_keeps_flag() {
    let mut m = machine(&[0x8F, 0x14]);
    m.v[0xF] = 200;
    m.v[1] = 100;
    run(&mut m).unwrap();
    assert_eq!(m.v[0xF], 1);
}

#[test]
fn profiles() {
    let legacy = Config::legacy();
    assert!(legacy.logic_resets_vf);
    assert_eq!(legacy.instructions_per_tick, 12);
    assert_eq!(legacy.reserved_tail, 352);
    assert!(legacy.truncate_long_rom);
    let modern = Config::modern();
    assert!(!modern.logic_resets_vf);
    assert_eq!(modern.instructions_per_tick, 1);
    assert_eq!(modern.program_capacity(), 3584);
    assert!(!modern.truncate_long_rom);
}
