use chip8::fault::Fault;
use chip8::instruction::Instruction;
use chip8::interpreter::Interpreter;

fn machine_with(program: Vec<u8>) -> Interpreter {
    let mut machine = Interpreter::new();
    assert_eq!(machine.load_program(&program), Ok(()));
    machine
}

fn step_ok(machine: &mut Interpreter) -> u128 {
    match machine.instruction_step() {
        Ok(step) => step.time_passed(),
        Err(fault) => panic!("unexpected fault: {:?}", fault),
    }
}

#[test]
fn load_program_sets_pc_and_memory() {
    let machine = machine_with(vec![0x60, 0x0A, 0x12, 0x00]);
    assert_eq!(machine.program_counter(), 0x200);
    assert_eq!(machine.read_memory(0x200), Ok(0x60));
    assert_eq!(machine.read_memory(0x203), Ok(0x00));
}

#[test]
fn load_program_too_large_is_rejected() {
    let mut machine = Interpreter::new();
    let oversized = vec![0u8; 4096 - 0x200 + 1];
    assert_eq!(machine.load_program(&oversized), Err(Fault::ProgramTooLarge));
    // Nothing was installed.
    assert_eq!(machine.program_counter(), 0);
    let exact = vec![0x11u8; 4096 - 0x200];
    assert_eq!(machine.load_program(&exact), Ok(()));
    assert_eq!(machine.read_memory(4095), Ok(0x11));
}

#[test]
fn add_with_carry_wraps_and_sets_vf() {
    // V0 = 0xFF, V1 = 0x01, V0 += V1: result 0x00 with carry.
    let mut machine = machine_with(vec![0x60, 0xFF, 0x61, 0x01, 0x80, 0x14]);
    step_ok(&mut machine);
    step_ok(&mut machine);
    step_ok(&mut machine);
    assert_eq!(machine.v_register(0), 0x00);
    assert_eq!(machine.v_register(0xF), 1);
}

#[test]
fn add_without_carry_clears_vf() {
    let mut machine = machine_with(vec![0x60, 0x10, 0x61, 0x01, 0x80, 0x14]);
    step_ok(&mut machine);
    step_ok(&mut machine);
    step_ok(&mut machine);
    assert_eq!(machine.v_register(0), 0x11);
    assert_eq!(machine.v_register(0xF), 0);
}

#[test]
fn sub_equal_operands_gives_vf_zero() {
    // V2 = V3 = 5; V2 -= V3 leaves 0 with VF = 0: the flag follows a
    // strict greater-than comparison, not the no-borrow convention.
    let mut machine = machine_with(vec![0x62, 0x05, 0x63, 0x05, 0x82, 0x35]);
    step_ok(&mut machine);
    step_ok(&mut machine);
    step_ok(&mut machine);
    assert_eq!(machine.v_register(2), 0x00);
    assert_eq!(machine.v_register(0xF), 0);
}

#[test]
fn sub_greater_sets_vf_and_smaller_wraps() {
    let mut machine = machine_with(vec![0x62, 0x07, 0x63, 0x05, 0x82, 0x35]);
    step_ok(&mut machine);
    step_ok(&mut machine);
    step_ok(&mut machine);
    assert_eq!(machine.v_register(2), 0x02);
    assert_eq!(machine.v_register(0xF), 1);

    let mut machine = machine_with(vec![0x62, 0x05, 0x63, 0x07, 0x82, 0x35]);
    step_ok(&mut machine);
    step_ok(&mut machine);
    step_ok(&mut machine);
    assert_eq!(machine.v_register(2), 0xFE);
    assert_eq!(machine.v_register(0xF), 0);
}

#[test]
fn reverse_sub_uses_strict_greater_than_flag() {
    // V2 = 5, V3 = 7: V2 = V3 - V2 = 2 with VF = 1 (V3 > V2).
    let mut machine = machine_with(vec![0x62, 0x05, 0x63, 0x07, 0x82, 0x37]);
    step_ok(&mut machine);
    step_ok(&mut machine);
    step_ok(&mut machine);
    assert_eq!(machine.v_register(2), 0x02);
    assert_eq!(machine.v_register(0xF), 1);

    // Equal operands: zero result and VF = 0.
    let mut machine = machine_with(vec![0x62, 0x05, 0x63, 0x05, 0x82, 0x37]);
    step_ok(&mut machine);
    step_ok(&mut machine);
    step_ok(&mut machine);
    assert_eq!(machine.v_register(2), 0x00);
    assert_eq!(machine.v_register(0xF), 0);
}

#[test]
fn shifts_capture_the_ejected_bit() {
    let mut machine = machine_with(vec![0x60, 0x81, 0x80, 0x06]);
    step_ok(&mut machine);
    step_ok(&mut machine);
    assert_eq!(machine.v_register(0), 0x40);
    assert_eq!(machine.v_register(0xF), 1);

    let mut machine = machine_with(vec![0x60, 0x81, 0x80, 0x0E]);
    step_ok(&mut machine);
    step_ok(&mut machine);
    assert_eq!(machine.v_register(0), 0x02);
    assert_eq!(machine.v_register(0xF), 1);
}

#[test]
fn logic_operations() {
    let mut machine = machine_with(vec![
        0x60, 0xF0, 0x61, 0x0F, 0x80, 0x11, // V0 |= V1
    ]);
    step_ok(&mut machine);
    step_ok(&mut machine);
    step_ok(&mut machine);
    assert_eq!(machine.v_register(0), 0xFF);

    let mut machine = machine_with(vec![0x60, 0xF3, 0x61, 0x0F, 0x80, 0x12]);
    step_ok(&mut machine);
    step_ok(&mut machine);
    step_ok(&mut machine);
    assert_eq!(machine.v_register(0), 0x03);

    let mut machine = machine_with(vec![0x60, 0xFF, 0x61, 0x0F, 0x80, 0x13]);
    step_ok(&mut machine);
    step_ok(&mut machine);
    step_ok(&mut machine);
    assert_eq!(machine.v_register(0), 0xF0);
}

#[test]
fn add_immediate_wraps_without_touching_vf() {
    let mut machine = machine_with(vec![0x60, 0xFF, 0x70, 0x02]);
    step_ok(&mut machine);
    step_ok(&mut machine);
    assert_eq!(machine.v_register(0), 0x01);
    assert_eq!(machine.v_register(0xF), 0);
}

#[test]
fn skip_instructions_advance_pc_by_four() {
    let mut machine = machine_with(vec![0x60, 0x05, 0x30, 0x05]);
    step_ok(&mut machine);
    step_ok(&mut machine);
    // The skip nets PC + 4 from the skip instruction's own address.
    assert_eq!(machine.program_counter(), 0x206);

    let mut machine = machine_with(vec![0x60, 0x05, 0x30, 0x06]);
    step_ok(&mut machine);
    step_ok(&mut machine);
    assert_eq!(machine.program_counter(), 0x204);
}

#[test]
fn call_and_return_round_trip() {
    let mut machine = machine_with(vec![
        0x22, 0x08, // 0x200: CALL 0x208
        0x00, 0x00, 0x00, 0x00, 0x00, 0x00, // padding
        0x00, 0xEE, // 0x208: RET
    ]);
    step_ok(&mut machine);
    assert_eq!(machine.program_counter(), 0x208);
    step_ok(&mut machine);
    assert_eq!(machine.program_counter(), 0x202);
}

#[test]
fn jump_plus_v0() {
    let mut machine = machine_with(vec![0x60, 0x04, 0xB3, 0x00]);
    step_ok(&mut machine);
    step_ok(&mut machine);
    assert_eq!(machine.program_counter(), 0x304);
}

#[test]
fn timers_count_down_and_saturate() {
    // DT = 2; three ticks observe 1, 0, 0: the timer never goes below
    // zero.
    let mut machine = machine_with(vec![0x60, 0x02, 0xF0, 0x15]);
    step_ok(&mut machine);
    step_ok(&mut machine);
    assert_eq!(machine.delay_timer(), 2);
    machine.frequency_step();
    assert_eq!(machine.delay_timer(), 1);
    machine.frequency_step();
    assert_eq!(machine.delay_timer(), 0);
    machine.frequency_step();
    assert_eq!(machine.delay_timer(), 0);
}

#[test]
fn sound_timer_drives_sound_on() {
    let mut machine = machine_with(vec![0x60, 0x02, 0xF0, 0x18]);
    step_ok(&mut machine);
    assert_eq!(machine.sound_on(), false);
    step_ok(&mut machine);
    assert_eq!(machine.sound_timer(), 2);
    assert_eq!(machine.sound_on(), true);
    machine.frequency_step();
    assert_eq!(machine.sound_on(), true);
    machine.frequency_step();
    assert_eq!(machine.sound_on(), false);
}

#[test]
fn delay_timer_can_be_read_back() {
    let mut machine = machine_with(vec![0x60, 0x09, 0xF0, 0x15, 0xF1, 0x07]);
    step_ok(&mut machine);
    step_ok(&mut machine);
    step_ok(&mut machine);
    assert_eq!(machine.v_register(1), 9);
}

#[test]
fn draw_sets_pixels_and_collision_flag() {
    let mut machine = machine_with(vec![
        0xA2, 0x0A, // I = 0x20A (sprite data below)
        0x60, 0x00, // V0 = 0
        0xD0, 0x01, // draw 1 row at (V0, V0)
        0xD0, 0x01, // draw again: collision
        0x00, 0x00, // padding
        0xFF, // sprite row
    ]);
    step_ok(&mut machine);
    step_ok(&mut machine);
    let draw_time = step_ok(&mut machine);
    assert_eq!(draw_time, 11000);
    let grid = machine.pixel_states();
    for x in 0..8 {
        assert_eq!(grid[x][0], true);
    }
    assert_eq!(machine.v_register(0xF), 0);
    step_ok(&mut machine);
    let grid = machine.pixel_states();
    for x in 0..8 {
        assert_eq!(grid[x][0], false);
    }
    assert_eq!(machine.v_register(0xF), 1);
}

#[test]
fn clear_display_turns_pixels_off() {
    let mut machine = machine_with(vec![
        0xA2, 0x08, // I = 0x208
        0x60, 0x00, // V0 = 0
        0xD0, 0x01, // draw
        0x00, 0xE0, // CLS
        0xFF, // sprite row
    ]);
    step_ok(&mut machine);
    step_ok(&mut machine);
    step_ok(&mut machine);
    step_ok(&mut machine);
    let grid = machine.pixel_states();
    for x in 0..64 {
        for y in 0..32 {
            assert_eq!(grid[x][y], false);
        }
    }
}

#[test]
fn font_lookup_and_font_contents() {
    // I = 5 * digit for the font glyph of V0.
    let mut machine = machine_with(vec![0x60, 0x0A, 0xF0, 0x29]);
    step_ok(&mut machine);
    step_ok(&mut machine);
    assert_eq!(machine.address_register(), 50);
    // The glyph for 0 starts at address 0.
    assert_eq!(machine.read_memory(0), Ok(0xF0));
    assert_eq!(machine.read_memory(4), Ok(0xF0));
}

#[test]
fn bcd_decomposition() {
    let mut machine = machine_with(vec![0x60, 0xEA, 0xA3, 0x00, 0xF0, 0x33]);
    step_ok(&mut machine);
    step_ok(&mut machine);
    step_ok(&mut machine);
    assert_eq!(machine.read_memory(0x300), Ok(2));
    assert_eq!(machine.read_memory(0x301), Ok(3));
    assert_eq!(machine.read_memory(0x302), Ok(4));
}

#[test]
fn register_block_store_and_load() {
    let mut machine = machine_with(vec![
        0x60, 0x01, // V0 = 1
        0x61, 0x02, // V1 = 2
        0x62, 0x03, // V2 = 3
        0xA4, 0x00, // I = 0x400
        0xF2, 0x55, // store V0..=V2 at I
        0x60, 0x09, // V0 = 9
        0x61, 0x09, // V1 = 9
        0xF2, 0x65, // load V0..=V2 from I
    ]);
    for _ in 0..5 {
        step_ok(&mut machine);
    }
    assert_eq!(machine.read_memory(0x400), Ok(1));
    assert_eq!(machine.read_memory(0x401), Ok(2));
    assert_eq!(machine.read_memory(0x402), Ok(3));
    step_ok(&mut machine);
    step_ok(&mut machine);
    step_ok(&mut machine);
    assert_eq!(machine.v_register(0), 1);
    assert_eq!(machine.v_register(1), 2);
    assert_eq!(machine.v_register(2), 3);
}

#[test]
fn add_register_to_i() {
    let mut machine = machine_with(vec![0xA3, 0x00, 0x60, 0x20, 0xF0, 0x1E]);
    step_ok(&mut machine);
    step_ok(&mut machine);
    step_ok(&mut machine);
    assert_eq!(machine.address_register(), 0x320);
}

#[test]
fn random_and_masks_the_draw() {
    // AND with 0x00 pins the result to zero whatever byte was drawn.
    let mut machine = machine_with(vec![0x60, 0xFF, 0xC0, 0x00]);
    step_ok(&mut machine);
    step_ok(&mut machine);
    assert_eq!(machine.v_register(0), 0);

    // AND with 0x0F keeps only the low nibble.
    let mut machine = machine_with(vec![0xC5, 0x0F]);
    step_ok(&mut machine);
    assert!(machine.v_register(5) < 16);
}

#[test]
fn wait_for_key_consumes_one_press() {
    let mut machine = machine_with(vec![0xF5, 0x0A, 0x00, 0xE0]);
    let entry_time = step_ok(&mut machine);
    assert_eq!(entry_time, 0);
    assert!(machine.waiting_for_key());
    // Polling without a key press keeps waiting.
    let poll_time = step_ok(&mut machine);
    assert_eq!(poll_time, 100);
    assert!(machine.waiting_for_key());
    assert_eq!(machine.program_counter(), 0x202);
    machine.key_pressed(7);
    let poll_time = step_ok(&mut machine);
    assert_eq!(poll_time, 100);
    assert!(!machine.waiting_for_key());
    assert_eq!(machine.v_register(5), 7);
}

#[test]
fn key_skip_consumes_the_key() {
    let mut machine = machine_with(vec![
        0x60, 0x04, // V0 = 4
        0xE0, 0x9E, // skip if key V0 pressed
        0xE0, 0x9E, // skip if key V0 pressed (key now consumed)
    ]);
    machine.key_pressed(4);
    step_ok(&mut machine);
    step_ok(&mut machine);
    // First read saw the key and skipped.
    assert_eq!(machine.program_counter(), 0x206);
    let mut machine = machine_with(vec![0x60, 0x04, 0xE0, 0x9E, 0xE0, 0x9E]);
    machine.key_pressed(4);
    machine.key_released(4);
    step_ok(&mut machine);
    step_ok(&mut machine);
    assert_eq!(machine.program_counter(), 0x204);
}

#[test]
fn key_not_pressed_skip() {
    let mut machine = machine_with(vec![0x60, 0x04, 0xE0, 0xA1]);
    step_ok(&mut machine);
    step_ok(&mut machine);
    assert_eq!(machine.program_counter(), 0x206);
}

#[test]
fn illegal_instruction_reports_address_and_bytes() {
    let mut machine = machine_with(vec![0xFF, 0xFF]);
    assert_eq!(
        machine.instruction_step(),
        Err(Fault::IllegalInstruction(0x200, 0xFF, 0xFF))
    );
}

#[test]
fn fetch_out_of_range_is_reported() {
    let mut machine = machine_with(vec![0x1F, 0xFF]);
    step_ok(&mut machine);
    assert_eq!(machine.program_counter(), 0xFFF);
    assert_eq!(machine.instruction_step(), Err(Fault::AddressOutOfRange(0xFFF)));
}

#[test]
fn draw_out_of_range_is_reported() {
    let mut machine = machine_with(vec![0xAF, 0xFF, 0xD0, 0x02]);
    step_ok(&mut machine);
    assert_eq!(machine.instruction_step(), Err(Fault::AddressOutOfRange(0xFFF)));
}

#[test]
fn bcd_out_of_range_is_reported() {
    let mut machine = machine_with(vec![0xAF, 0xFF, 0xF0, 0x33]);
    step_ok(&mut machine);
    assert_eq!(machine.instruction_step(), Err(Fault::AddressOutOfRange(0xFFF)));
}

#[test]
fn key_out_of_range_is_reported() {
    let mut machine = machine_with(vec![0x60, 0x20, 0xE0, 0x9E]);
    step_ok(&mut machine);
    assert_eq!(machine.instruction_step(), Err(Fault::KeyOutOfRange(0x20)));
}

#[test]
fn stack_faults_surface_through_execute() {
    let mut machine = machine_with(vec![0x00, 0xEE]);
    assert_eq!(machine.instruction_step(), Err(Fault::StackUnderflow));

    let mut machine = machine_with(vec![0x00, 0x00]);
    for _ in 0..16 {
        assert_eq!(machine.execute(Instruction::CallAddress(0x300), 0), Ok(105));
    }
    assert_eq!(
        machine.execute(Instruction::CallAddress(0x300), 0),
        Err(Fault::StackOverflow)
    );
}

#[test]
fn step_times_match_the_documented_costs() {
    let mut machine = machine_with(vec![0x60, 0x05, 0x81, 0x04, 0x12, 0x00]);
    assert_eq!(step_ok(&mut machine), 27);
    assert_eq!(step_ok(&mut machine), 200);
    assert_eq!(step_ok(&mut machine), 105);
}

#[test]
fn reset_restores_the_loaded_state() {
    let program = vec![
        0x60, 0x11, // V0 = 0x11
        0x61, 0x22, // V1 = 0x22
        0xA2, 0x0C, // I = 0x20C
        0x62, 0x00, // V2 = 0
        0xD2, 0x21, // draw at (V2, V2)
        0xF0, 0x15, // DT = V0
        0xFF, // sprite row
    ];
    let mut machine = machine_with(program.clone());
    for _ in 0..6 {
        step_ok(&mut machine);
    }
    machine.key_pressed(3);
    assert_ne!(machine.v_register(0), 0);
    machine.reset();
    assert_eq!(machine.program_counter(), 0x200);
    for index in 0..16 {
        assert_eq!(machine.v_register(index), 0);
    }
    assert_eq!(machine.address_register(), 0);
    assert_eq!(machine.delay_timer(), 0);
    assert_eq!(machine.sound_timer(), 0);
    assert!(!machine.waiting_for_key());
    let grid = machine.pixel_states();
    for x in 0..64 {
        for y in 0..32 {
            assert_eq!(grid[x][y], false);
        }
    }
    // The program image is back in place and runs again identically.
    for (offset, byte) in program.iter().enumerate() {
        assert_eq!(machine.read_memory(0x200 + offset as u16), Ok(*byte));
    }
    step_ok(&mut machine);
    assert_eq!(machine.v_register(0), 0x11);
}

#[test]
fn reset_before_any_load_gives_a_fresh_machine() {
    let mut machine = Interpreter::new();
    machine.key_pressed(1);
    machine.reset();
    assert_eq!(machine.program_counter(), 0x200);
    assert_eq!(machine.read_memory(0x200), Ok(0));
}
