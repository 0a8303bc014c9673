use chip8::machine::{Chip8, LoadError, StepOutcome};

#[test]
fn fresh_machine_state() {
    let chip = Chip8::new();
    assert_eq!(chip.pc, 0x200);
    assert_eq!(chip.index, 0);
    assert_eq!(chip.sp, 0);
    assert_eq!(chip.delay_timer, 0);
    assert_eq!(chip.sound_timer, 0);
    // font glyph for 0 sits at the font base
    assert_eq!(chip.memory[0x50], 0xF0);
    assert_eq!(chip.memory[0x54], 0xF0);
    // glyph for F
    assert_eq!(chip.memory[0x9F], 0x80);
    // everything else zeroed
    assert_eq!(chip.memory[0x4F], 0);
    assert_eq!(chip.memory[0xA0], 0);
    assert!(chip.v.iter().all(|&b| b == 0));
    assert!(chip.screen.iter().all(|&p| !p));
    assert!(chip.keys.iter().all(|&k| !k));
}

#[test]
fn reset_restores_construction_state() {
    let mut chip = Chip8::new();
    let _ = chip.execute_opcode(0x6012);
    let _ = chip.execute_opcode(0xA123);
    chip.reset();
    assert_eq!(chip.pc, 0x200);
    assert_eq!(chip.index, 0);
    assert_eq!(chip.v[0], 0);
}

#[test]
fn timer_decay_scenario() {
    let mut chip = Chip8::new();
    chip.delay_timer = 5;
    chip.sound_timer = 0;
    chip.tick_timers();
    assert_eq!(chip.delay_timer, 4);
    assert_eq!(chip.sound_timer, 0);
    for _ in 0..10 {
        chip.tick_timers();
    }
    assert_eq!(chip.delay_timer, 0);
    assert_eq!(chip.sound_timer, 0);
}

#[test]
fn load_program_fills_memory_from_program_start() {
    let mut chip = Chip8::new();
    let program = vec![0x60, 0x42, 0x12, 0x00];
    assert_eq!(chip.load_program(&program), Ok(()));
    assert_eq!(chip.memory[0x200], 0x60);
    assert_eq!(chip.memory[0x203], 0x00);
    assert_eq!(chip.memory[0x204], 0);
}

#[test]
fn load_program_boundary() {
    let mut chip = Chip8::new();
    let exact = vec![0xAB; 3584];
    assert_eq!(chip.load_program(&exact), Ok(()));
    assert_eq!(chip.memory[4095], 0xAB);

    let mut chip = Chip8::new();
    let too_long = vec![0xAB; 3585];
    assert_eq!(chip.load_program(&too_long), Err(LoadError::ProgramTooLarge));
    // rejected whole: nothing written
    assert_eq!(chip.memory[0x200], 0);
}

#[test]
fn step_runs_the_fetched_instruction() {
    let mut chip = Chip8::new();
    let program = vec![0x60, 0x42];
    assert_eq!(chip.load_program(&program), Ok(()));
    let r = chip.step();
    assert_eq!(r, Ok(StepOutcome::Executed));
    assert_eq!(chip.v[0], 0x42);
    assert_eq!(chip.pc, 0x202);
}

#[test]
fn fetch_composes_big_endian() {
    let mut chip = Chip8::new();
    let program = vec![0xAB, 0xCD];
    assert_eq!(chip.load_program(&program), Ok(()));
    assert_eq!(chip.fetch_opcode(), 0xABCD);
}

#[test]
fn emulate_cycle_steps_and_ticks() {
    let mut chip = Chip8::new();
    let program = vec![0x60, 0x01, 0x60, 0x02];
    assert_eq!(chip.load_program(&program), Ok(()));
    chip.delay_timer = 2;
    let r = chip.emulate_cycle();
    assert_eq!(r, Ok(StepOutcome::Executed));
    assert_eq!(chip.v[0], 1);
    assert_eq!(chip.delay_timer, 1);
    let r = chip.emulate_cycle();
    assert_eq!(r, Ok(StepOutcome::Executed));
    assert_eq!(chip.v[0], 2);
    assert_eq!(chip.delay_timer, 0);
}

#[test]
fn unknown_opcode_repeats_under_step() {
    let mut chip = Chip8::new();
    // memory at 0x200 is zeroed: opcode 0x0000 matches nothing
    let r = chip.step();
    assert_eq!(r, Ok(StepOutcome::UnknownOpcode(0)));
    assert_eq!(chip.pc, 0x200);
    let r = chip.step();
    assert_eq!(r, Ok(StepOutcome::UnknownOpcode(0)));
}

#[test]
fn derived_addresses_wrap_around_memory() {
    // the explicit decision: addresses derived from the index
    // register wrap modulo the memory size
    let mut chip = Chip8::new();
    chip.v[0] = 123;
    chip.index = 4095;
    let _ = chip.execute_opcode(0xF033);
    assert_eq!(chip.memory[4095], 1);
    assert_eq!(chip.memory[0], 2);
    assert_eq!(chip.memory[1], 3);

    let mut chip = Chip8::new();
    chip.v[0] = 0xAA;
    chip.v[1] = 0xBB;
    chip.index = 4095;
    let _ = chip.execute_opcode(0xF155);
    assert_eq!(chip.memory[4095], 0xAA);
    assert_eq!(chip.memory[0], 0xBB);
}

#[test]
fn emulate_cycle_fatal_leaves_timers_alone() {
    let mut chip = Chip8::new();
    chip.pc = 4095;
    chip.delay_timer = 5;
    let r = chip.emulate_cycle();
    assert!(r.is_err());
    assert_eq!(chip.delay_timer, 5);
    assert_eq!(chip.pc, 4095);
}
