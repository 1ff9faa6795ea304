use chip8::chip8::Chip8;
use chip8::decode::{decode, split_opcode, Instruction, JoinHexInt};
use chip8::error::EngineError;

fn load(words: &[u16]) -> Chip8 {
    let mut rom: Vec<u8> = Vec::new();
    for w in words {
        rom.push((w >> 8) as u8);
        rom.push((w & 0xFF) as u8);
    }
    Chip8::new(&rom).expect("program fits")
}

fn run(c: &mut Chip8, steps: usize) {
    for _ in 0..steps {
        c.clockcycle_with(0).expect("instruction runs");
    }
}

#[test]
fn carry_add_wraps_and_sets_flag() {
    let mut c = load(&[0x60FF, 0x6101, 0x8014]);
    run(&mut c, 3);
    assert_eq!(c.register(0), 0);
    assert_eq!(c.register(0xF), 1);
}

#[test]
fn carry_add_without_overflow_clears_flag() {
    let mut c = load(&[0x6F01, 0x60F0, 0x610F, 0x8014]);
    run(&mut c, 4);
    assert_eq!(c.register(0), 0xFF);
    assert_eq!(c.register(0xF), 0);
}

#[test]
fn subtract_without_borrow_sets_flag() {
    let mut c = load(&[0x6009, 0x6103, 0x8015]);
    run(&mut c, 3);
    assert_eq!(c.register(0), 6);
    assert_eq!(c.register(0xF), 1);
}

#[test]
fn subtract_with_borrow_wraps_and_clears_flag() {
    let mut c = load(&[0x6003, 0x6109, 0x8015]);
    run(&mut c, 3);
    assert_eq!(c.register(0), 250);
    assert_eq!(c.register(0xF), 0);
}

#[test]
fn subtract_equal_values_clears_flag() {
    let mut c = load(&[0x6F01, 0x6007, 0x6107, 0x8015]);
    run(&mut c, 4);
    assert_eq!(c.register(0), 0);
    assert_eq!(c.register(0xF), 0);
}

#[test]
fn subtract_reverse() {
    let mut c = load(&[0x6003, 0x6109, 0x8017]);
    run(&mut c, 3);
    assert_eq!(c.register(0), 6);
    assert_eq!(c.register(0xF), 1);
    let mut c = load(&[0x6009, 0x6103, 0x8017]);
    run(&mut c, 3);
    assert_eq!(c.register(0), 250);
    assert_eq!(c.register(0xF), 0);
}

#[test]
fn shift_right_moves_low_bit_into_flag() {
    let mut c = load(&[0x6003, 0x8006]);
    run(&mut c, 2);
    assert_eq!(c.register(0), 0b0000_0001);
    assert_eq!(c.register(0xF), 1);
}

#[test]
fn shift_left_moves_high_bit_into_flag() {
    let mut c = load(&[0x6081, 0x800E]);
    run(&mut c, 2);
    assert_eq!(c.register(0), 0b0000_0010);
    assert_eq!(c.register(0xF), 1);
}

#[test]
fn shift_ignores_second_register() {
    let mut c = load(&[0x6004, 0x61FF, 0x8016]);
    run(&mut c, 3);
    assert_eq!(c.register(0), 2);
    assert_eq!(c.register(0xF), 0);
    assert_eq!(c.register(1), 0xFF);
}

#[test]
fn draw_twice_restores_framebuffer() {
    // glyph "0" from the font, drawn at (10, 5) twice
    let mut c = load(&[0x600A, 0x6105, 0xA000, 0xD015, 0xD015]);
    run(&mut c, 4);
    assert!(c.pixel(10, 5));
    assert_eq!(c.register(0xF), 0);
    run(&mut c, 1);
    assert!(c.framebuffer().iter().all(|p| !*p));
    assert_eq!(c.register(0xF), 1);
}

#[test]
fn draw_wraps_columns_and_rows() {
    // an 8x2 sprite of lit pixels at (60, 30)
    let mut c = load(&[0x603C, 0x611E, 0xA208, 0xD012, 0xFFFF]);
    run(&mut c, 4);
    for y in [30usize, 31] {
        for x in [60usize, 61, 62, 63, 0, 1, 2, 3] {
            assert!(c.pixel(x, y), "pixel ({}, {})", x, y);
        }
        assert!(!c.pixel(4, y));
        assert!(!c.pixel(59, y));
    }
    assert!(!c.pixel(60, 0));
    assert_eq!(c.framebuffer().iter().filter(|p| **p).count(), 16);
}

#[test]
fn draw_wraps_rows_past_bottom() {
    let mut c = load(&[0x603C, 0x611F, 0xA208, 0xD012, 0xFFFF]);
    run(&mut c, 4);
    for x in [60usize, 63, 0, 3] {
        assert!(c.pixel(x, 31));
        assert!(c.pixel(x, 0));
    }
    assert!(!c.pixel(60, 30));
    assert!(!c.pixel(60, 1));
}

#[test]
fn draw_reports_collision_only_when_a_pixel_goes_dark() {
    // "1" then "0" over it: the glyphs share lit pixels
    let mut c = load(&[0x6001, 0xF029, 0xD005, 0x6000, 0xF029, 0x6000, 0xD005]);
    run(&mut c, 3);
    assert_eq!(c.register(0xF), 0);
    run(&mut c, 4);
    assert_eq!(c.register(0xF), 1);
}

#[test]
fn draw_outside_memory_fails() {
    let mut c = load(&[0xAFFE, 0xD003]);
    run(&mut c, 1);
    assert_eq!(c.clockcycle_with(0), Err(EngineError::MemoryOutOfBounds(0xFFE)));
    assert_eq!(c.pc(), 0x202);
}

#[test]
fn clear_screen() {
    let mut c = load(&[0xA000, 0xD005, 0x00E0]);
    run(&mut c, 2);
    assert!(c.framebuffer().iter().any(|p| *p));
    run(&mut c, 1);
    assert!(c.framebuffer().iter().all(|p| !*p));
}

#[test]
fn call_then_return_restores_pc_and_depth() {
    let mut rom = vec![0x23, 0x00, 0x60, 0x07];
    rom.resize(0x100, 0);
    rom.extend_from_slice(&[0x00, 0xEE]);
    let mut c = Chip8::new(&rom).unwrap();
    assert_eq!(c.stack_depth(), 0);
    run(&mut c, 1);
    assert_eq!(c.pc(), 0x300);
    assert_eq!(c.stack_depth(), 1);
    run(&mut c, 1);
    assert_eq!(c.pc(), 0x202);
    assert_eq!(c.stack_depth(), 0);
}

#[test]
fn return_on_empty_stack_underflows() {
    let mut c = load(&[0x00EE]);
    assert_eq!(c.clockcycle_with(0), Err(EngineError::StackUnderflow));
    assert_eq!(c.pc(), 0x200);
}

#[test]
fn seventeenth_call_overflows() {
    let mut c = load(&[0x2200]);
    run(&mut c, 16);
    assert_eq!(c.stack_depth(), 16);
    assert_eq!(c.clockcycle_with(0), Err(EngineError::StackOverflow));
    assert_eq!(c.stack_depth(), 16);
    assert_eq!(c.pc(), 0x200);
}

#[test]
fn store_then_load_round_trip() {
    let mut c = load(&[
        0x6011, 0x6122, 0x6233, 0x6344, 0xA500, 0xF355, 0x6000, 0x6100, 0x6200, 0x6300, 0xF365,
    ]);
    run(&mut c, 6);
    assert_eq!(c.memory_at(0x500), 0x11);
    assert_eq!(c.memory_at(0x503), 0x44);
    assert_eq!(c.memory_at(0x504), 0);
    assert_eq!(c.index(), 0x500);
    run(&mut c, 4);
    assert_eq!(c.register(0), 0);
    run(&mut c, 1);
    assert_eq!(
        [c.register(0), c.register(1), c.register(2), c.register(3)],
        [0x11, 0x22, 0x33, 0x44]
    );
    assert_eq!(c.index(), 0x500);
}

#[test]
fn store_past_end_of_memory_fails() {
    let mut c = load(&[0xAFFE, 0xF355]);
    run(&mut c, 1);
    assert_eq!(c.clockcycle_with(0), Err(EngineError::MemoryOutOfBounds(0xFFE)));
    assert_eq!(c.memory_at(0xFFE), 0);
}

#[test]
fn store_over_font_fails() {
    let mut c = load(&[0xA010, 0xF055]);
    run(&mut c, 1);
    assert_eq!(c.clockcycle_with(0), Err(EngineError::MemoryOutOfBounds(0x010)));
    assert_eq!(c.memory_at(0x010), 0x10);
}

#[test]
fn load_past_end_of_memory_fails() {
    let mut c = load(&[0xAFFF, 0xF165]);
    run(&mut c, 1);
    assert_eq!(c.clockcycle_with(0), Err(EngineError::MemoryOutOfBounds(0xFFF)));
}

#[test]
fn fetch_past_end_of_memory_fails() {
    let mut c = load(&[0x1FFF]);
    run(&mut c, 1);
    assert_eq!(c.pc(), 0xFFF);
    assert_eq!(c.clockcycle_with(0), Err(EngineError::MemoryOutOfBounds(0xFFF)));
    assert_eq!(c.pc(), 0xFFF);
}

#[test]
fn unknown_opcode_changes_nothing() {
    let mut c = load(&[0x0FFF]);
    assert_eq!(c.clockcycle(), Err(EngineError::UnknownOpcode(0x0FFF)));
    assert_eq!(c.pc(), 0x200);
    assert_eq!(c.stack_depth(), 0);
    assert_eq!(c.index(), 0);
    for r in 0..16 {
        assert_eq!(c.register(r), 0);
    }
    assert_eq!(c.memory_at(0x200), 0x0F);
}

#[test]
fn end_to_end_program() {
    let mut c = load(&[0x6005, 0x6103, 0x8014]);
    for _ in 0..3 {
        assert_eq!(c.clockcycle(), Ok(()));
    }
    assert_eq!(c.register(0), 8);
    assert_eq!(c.register(0xF), 0);
    assert_eq!(c.pc(), 0x206);
}

#[test]
fn new_loads_font_and_image() {
    let c = load(&[0x1234]);
    assert_eq!(c.pc(), 0x200);
    assert_eq!(c.memory_at(0), 0xF0);
    assert_eq!(c.memory_at(5), 0x20);
    assert_eq!(c.memory_at(79), 0x80);
    assert_eq!(c.memory_at(80), 0);
    assert_eq!(c.memory_at(0x200), 0x12);
    assert_eq!(c.memory_at(0x201), 0x34);
    assert_eq!(c.memory_at(0x202), 0);
    assert_eq!(c.delay_timer(), 0);
    assert_eq!(c.sound_timer(), 0);
}

#[test]
fn largest_program_fits_and_one_more_byte_does_not() {
    let rom = vec![0xAB; 4096 - 512];
    let c = Chip8::new(&rom).unwrap();
    assert_eq!(c.memory_at(0xFFF), 0xAB);
    let rom = vec![0xAB; 4096 - 512 + 1];
    assert!(matches!(Chip8::new(&rom), Err(EngineError::ProgramTooLarge)));
}

#[test]
fn skips_on_comparisons() {
    // 3xkk taken, 4xkk not taken, 5xy0 taken, 9xy0 not taken
    let mut c = load(&[0x6005, 0x6105, 0x3005, 0x0000, 0x4005, 0x5010, 0x0000, 0x9010, 0x6207]);
    run(&mut c, 3);
    assert_eq!(c.pc(), 0x208);
    run(&mut c, 2);
    assert_eq!(c.pc(), 0x20E);
    run(&mut c, 2);
    assert_eq!(c.register(2), 7);
}

#[test]
fn immediate_add_wraps_without_flag() {
    let mut c = load(&[0x60FF, 0x7002]);
    run(&mut c, 2);
    assert_eq!(c.register(0), 1);
    assert_eq!(c.register(0xF), 0);
}

#[test]
fn bitwise_operations() {
    let mut c = load(&[0x60F0, 0x613C, 0x8200, 0x8211, 0x8300, 0x8312, 0x8400, 0x8413]);
    run(&mut c, 8);
    assert_eq!(c.register(2), 0xFC);
    assert_eq!(c.register(3), 0x30);
    assert_eq!(c.register(4), 0xCC);
}

#[test]
fn register_copy() {
    let mut c = load(&[0x6142, 0x8010]);
    run(&mut c, 2);
    assert_eq!(c.register(0), 0x42);
}

#[test]
fn jump_and_jump_with_offset() {
    let mut c = load(&[0x6004, 0xB300]);
    run(&mut c, 2);
    assert_eq!(c.pc(), 0x304);
    let mut c = load(&[0x1ABC]);
    run(&mut c, 1);
    assert_eq!(c.pc(), 0xABC);
}

#[test]
fn font_address_and_index_add() {
    let mut c = load(&[0x600A, 0xF029, 0x6103, 0xF11E]);
    run(&mut c, 2);
    assert_eq!(c.index(), 50);
    run(&mut c, 2);
    assert_eq!(c.index(), 53);
}

#[test]
fn bcd_digits() {
    let mut c = load(&[0x60EA, 0xA400, 0xF033]);
    run(&mut c, 3);
    assert_eq!([c.memory_at(0x400), c.memory_at(0x401), c.memory_at(0x402)], [2, 3, 4]);
    let mut c = load(&[0x6007, 0xA400, 0xF033]);
    run(&mut c, 3);
    assert_eq!([c.memory_at(0x400), c.memory_at(0x401), c.memory_at(0x402)], [0, 0, 7]);
}

#[test]
fn bcd_past_end_of_memory_fails() {
    let mut c = load(&[0xAFFE, 0xF033]);
    run(&mut c, 1);
    assert_eq!(c.clockcycle_with(0), Err(EngineError::MemoryOutOfBounds(0xFFE)));
}

#[test]
fn timers_are_set_read_and_ticked() {
    let mut c = load(&[0x6003, 0xF015, 0xF018, 0xF107]);
    run(&mut c, 3);
    assert_eq!(c.delay_timer(), 3);
    assert_eq!(c.sound_timer(), 3);
    c.tick_timers();
    assert_eq!(c.delay_timer(), 2);
    assert_eq!(c.sound_timer(), 2);
    run(&mut c, 1);
    assert_eq!(c.register(1), 2);
    c.tick_timers();
    c.tick_timers();
    c.tick_timers();
    assert_eq!(c.delay_timer(), 0);
    assert_eq!(c.sound_timer(), 0);
}

#[test]
fn key_wait_retries_until_a_key_is_down() {
    let mut c = load(&[0xF30A]);
    run(&mut c, 2);
    assert_eq!(c.pc(), 0x200);
    c.set_key(4, true);
    c.set_key(9, true);
    run(&mut c, 1);
    assert_eq!(c.register(3), 9);
    assert_eq!(c.pc(), 0x202);
}

#[test]
fn key_skips() {
    let mut c = load(&[0x6005, 0xE09E, 0x0000, 0xE0A1, 0x6107]);
    c.set_key(5, true);
    run(&mut c, 2);
    assert_eq!(c.pc(), 0x206);
    run(&mut c, 1);
    assert_eq!(c.pc(), 0x208);
    c.set_key(5, false);
    let mut d = load(&[0x6005, 0xE0A1, 0x0000, 0x6107]);
    run(&mut d, 3);
    assert_eq!(d.register(1), 7);
}

#[test]
fn random_load_is_masked() {
    let mut c = load(&[0xC0AA]);
    c.clockcycle_with(0xFF).unwrap();
    assert_eq!(c.register(0), 0xAA);
    let mut c = load(&[0xC00F]);
    c.clockcycle_with(0x3C).unwrap();
    assert_eq!(c.register(0), 0x0C);
    let mut c = load(&[0xC000, 0xC10F]);
    c.clockcycle().unwrap();
    assert_eq!(c.register(0), 0);
    c.clockcycle().unwrap();
    assert!(c.register(1) <= 0x0F);
}

#[test]
fn split_and_decode() {
    assert_eq!(split_opcode(0xD123), (0xD, 0x1, 0x2, 0x3));
    assert_eq!((0x1u16, 0x2u16).join_hex_ints(), 0x12);
    assert_eq!((0xAu16, 0xBu16, 0xCu16).join_hex_ints(), 0xABC);
    assert_eq!(decode(split_opcode(0x00E0)), Some(Instruction::Cls));
    assert_eq!(decode(split_opcode(0x00EE)), Some(Instruction::Ret));
    assert_eq!(decode(split_opcode(0x2ABC)), Some(Instruction::Call { addr: 0xABC }));
    assert_eq!(decode(split_opcode(0x8AB6)), Some(Instruction::Shr { x: 0xA }));
    assert_eq!(decode(split_opcode(0xD12F)), Some(Instruction::Draw { x: 1, y: 2, n: 0xF }));
    assert_eq!(decode(split_opcode(0xF365)), Some(Instruction::LdVxI { x: 3 }));
    assert_eq!(decode(split_opcode(0x0FFF)), None);
    assert_eq!(decode(split_opcode(0x5121)), None);
    assert_eq!(decode(split_opcode(0x8128)), None);
    assert_eq!(decode(split_opcode(0xE19F)), None);
    assert_eq!(decode(split_opcode(0xF1FF)), None);
}

#[test]
fn exec_opcode_reports_unknown_word() {
    let mut c = load(&[]);
    assert_eq!(c.exec_opcode((0x5, 0x1, 0x2, 0x1), 0), Err(EngineError::UnknownOpcode(0x5121)));
    assert_eq!(c.exec_opcode((0x6, 0x1, 0x2, 0x3), 0), Ok(()));
    assert_eq!(c.register(1), 0x23);
}
