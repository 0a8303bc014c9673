use chip8::machine::{Chip8, StepOutcome};

fn machine_with_row_sprite(byte: u8) -> Chip8 {
    let mut chip = Chip8::new();
    let program = vec![byte];
    assert_eq!(chip.load_program(&program), Ok(()));
    let _ = chip.execute_opcode(0xA200);
    chip
}

#[test]
fn draw_twice_collides_and_erases() {
    let mut chip = machine_with_row_sprite(0xFF);
    chip.v[0] = 3;
    chip.v[1] = 5;

    let r = chip.execute_opcode(0xD011);
    assert_eq!(r, Ok(StepOutcome::Executed));
    assert_eq!(chip.v[0xF], 0);
    for dx in 0..8 {
        assert!(chip.pixel(3 + dx, 5));
    }
    assert!(!chip.pixel(11, 5));
    assert!(!chip.pixel(2, 5));

    let r = chip.execute_opcode(0xD011);
    assert_eq!(r, Ok(StepOutcome::Executed));
    assert_eq!(chip.v[0xF], 1);
    for dx in 0..8 {
        assert!(!chip.pixel(3 + dx, 5));
    }
}

#[test]
fn draw_wraps_second_column_to_zero() {
    let mut chip = machine_with_row_sprite(0xFF);
    chip.v[0] = 63;
    chip.v[1] = 0;
    let _ = chip.execute_opcode(0xD011);
    assert!(chip.pixel(63, 0));
    // the second sprite column wraps to the left edge
    assert!(chip.pixel(0, 0));
    assert!(chip.pixel(6, 0));
    assert!(!chip.pixel(7, 0));
}

#[test]
fn draw_wraps_rows_vertically() {
    let mut chip = Chip8::new();
    let program = vec![0x80, 0x80];
    assert_eq!(chip.load_program(&program), Ok(()));
    let _ = chip.execute_opcode(0xA200);
    chip.v[0] = 0;
    chip.v[1] = 31;
    let _ = chip.execute_opcode(0xD012);
    assert!(chip.pixel(0, 31));
    // the second sprite row wraps to the top edge
    assert!(chip.pixel(0, 0));
}

#[test]
fn draw_coordinates_reduce_modulo_screen() {
    let mut chip = machine_with_row_sprite(0x80);
    chip.v[0] = 64;
    chip.v[1] = 32;
    let _ = chip.execute_opcode(0xD011);
    assert!(chip.pixel(0, 0));
}

#[test]
fn draw_xor_only_touches_set_bits() {
    let mut chip = machine_with_row_sprite(0xA0);
    chip.v[0] = 0;
    chip.v[1] = 0;
    let _ = chip.execute_opcode(0xD011);
    assert!(chip.pixel(0, 0));
    assert!(!chip.pixel(1, 0));
    assert!(chip.pixel(2, 0));
    assert_eq!(chip.v[0xF], 0);
}

#[test]
fn draw_partial_overlap_collides_once() {
    let mut chip = machine_with_row_sprite(0xC0);
    chip.v[0] = 0;
    chip.v[1] = 0;
    let _ = chip.execute_opcode(0xD011);
    // second sprite one column right: overlaps at column 1 only
    chip.v[0] = 1;
    let _ = chip.execute_opcode(0xD011);
    assert_eq!(chip.v[0xF], 1);
    assert!(chip.pixel(0, 0));
    assert!(!chip.pixel(1, 0));
    assert!(chip.pixel(2, 0));
}

#[test]
fn clear_screen_unlights_everything_and_advances() {
    let mut chip = machine_with_row_sprite(0xFF);
    chip.v[0] = 10;
    chip.v[1] = 10;
    let _ = chip.execute_opcode(0xD011);
    assert!(chip.pixel(10, 10));
    let pc_before = chip.pc;
    let _ = chip.execute_opcode(0x00E0);
    assert!(chip.screen.iter().all(|&p| !p));
    assert_eq!(chip.pc, pc_before + 2);
}

#[test]
fn draw_fetches_rows_from_index_register() {
    let mut chip = Chip8::new();
    // glyph for digit 1 at the font base: 0x20, 0x60, 0x20, 0x20, 0x70
    chip.v[0] = 1;
    let _ = chip.execute_opcode(0xF029);
    chip.v[2] = 0;
    chip.v[3] = 0;
    let _ = chip.execute_opcode(0xD235);
    // top row 0x20: only bit 2 lit
    assert!(!chip.pixel(0, 0));
    assert!(!chip.pixel(1, 0));
    assert!(chip.pixel(2, 0));
    // second row 0x60: bits 1 and 2 lit
    assert!(chip.pixel(1, 1));
    assert!(chip.pixel(2, 1));
    // bottom row 0x70: bits 1..=3 lit
    assert!(chip.pixel(1, 4));
    assert!(chip.pixel(2, 4));
    assert!(chip.pixel(3, 4));
}

#[test]
fn sprite_fetch_wraps_at_memory_end() {
    // rows are fetched at wrapped addresses: with the index at the
    // last byte, the second row comes from address zero
    let mut chip = Chip8::new();
    chip.memory[4095] = 0x80;
    chip.memory[0] = 0x80;
    chip.index = 4095;
    chip.v[0] = 0;
    chip.v[1] = 0;
    let _ = chip.execute_opcode(0xD012);
    assert!(chip.pixel(0, 0));
    assert!(chip.pixel(0, 1));
}
