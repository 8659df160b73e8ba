use chip8::display::Display;
use chip8::fault::Fault;
use chip8::keyboard::Keyboard;
use chip8::memory::Memory;
use chip8::register::{Register16Bit, Register8Bit};
use chip8::stack::Stack;

#[test]
fn stack_is_lifo() {
    let mut stack = Stack::new();
    assert_eq!(stack.push(0xAAA), Ok(()));
    assert_eq!(stack.push(0xBBB), Ok(()));
    assert_eq!(stack.push(0xCCC), Ok(()));
    assert_eq!(stack.pop(), Ok(0xCCC));
    assert_eq!(stack.pop(), Ok(0xBBB));
    assert_eq!(stack.pop(), Ok(0xAAA));
}

#[test]
fn stack_sixteen_pushes_round_trip() {
    let mut stack = Stack::new();
    for k in 0..16u16 {
        assert_eq!(stack.push(0x200 + k), Ok(()));
    }
    for k in (0..16u16).rev() {
        assert_eq!(stack.pop(), Ok(0x200 + k));
    }
}

#[test]
fn stack_overflow_is_reported() {
    let mut stack = Stack::new();
    for k in 0..16u16 {
        assert_eq!(stack.push(k), Ok(()));
    }
    assert_eq!(stack.push(16), Err(Fault::StackOverflow));
    // The stack is intact after the refused push.
    assert_eq!(stack.pop(), Ok(15));
}

#[test]
fn stack_underflow_is_reported() {
    let mut stack = Stack::new();
    assert_eq!(stack.pop(), Err(Fault::StackUnderflow));
    assert_eq!(stack.push(7), Ok(()));
    assert_eq!(stack.pop(), Ok(7));
    assert_eq!(stack.pop(), Err(Fault::StackUnderflow));
}

#[test]
fn keyboard_read_clears_the_key() {
    let mut keyboard = Keyboard::new();
    keyboard.key_pressed(5);
    assert_eq!(keyboard.key_state(5), true);
    assert_eq!(keyboard.key_state(5), false);
}

#[test]
fn keyboard_release_and_reset() {
    let mut keyboard = Keyboard::new();
    keyboard.key_pressed(3);
    keyboard.key_released(3);
    assert_eq!(keyboard.key_state(3), false);
    keyboard.key_pressed(0);
    keyboard.key_pressed(15);
    keyboard.reset();
    assert_eq!(keyboard.key_state(0), false);
    assert_eq!(keyboard.key_state(15), false);
}

#[test]
fn memory_holds_font_and_zeroes() {
    let memory = Memory::new();
    assert_eq!(memory.byte_read(0), Ok(0xF0));
    assert_eq!(memory.byte_read(79), Ok(0x80));
    assert_eq!(memory.byte_read(80), Ok(0));
    assert_eq!(memory.byte_read(4095), Ok(0));
}

#[test]
fn memory_read_write_round_trip() {
    let mut memory = Memory::new();
    assert_eq!(memory.byte_write(0x300, 0xAB), Ok(()));
    assert_eq!(memory.byte_write(0x301, 0xCD), Ok(()));
    assert_eq!(memory.byte_read(0x300), Ok(0xAB));
    assert_eq!(memory.two_byte_read(0x300), Ok((0xAB, 0xCD)));
}

#[test]
fn memory_out_of_range_is_reported() {
    let mut memory = Memory::new();
    assert_eq!(memory.byte_read(4096), Err(Fault::AddressOutOfRange(4096)));
    assert_eq!(memory.byte_write(5000, 1), Err(Fault::AddressOutOfRange(5000)));
    assert_eq!(memory.two_byte_read(4095), Err(Fault::AddressOutOfRange(4095)));
}

#[test]
fn memory_reset_restores_initial_contents() {
    let mut memory = Memory::new();
    assert_eq!(memory.byte_write(0, 0x11), Ok(()));
    assert_eq!(memory.byte_write(0x700, 0x22), Ok(()));
    memory.reset();
    assert_eq!(memory.byte_read(0), Ok(0xF0));
    assert_eq!(memory.byte_read(0x700), Ok(0));
}

#[test]
fn display_draws_a_row_and_reports_collision() {
    let mut display = Display::new();
    let sprite = vec![0xFF];
    assert_eq!(display.draw_sprite(0, 0, &sprite), false);
    let grid = display.state();
    for x in 0..8 {
        assert_eq!(grid[x][0], true);
    }
    assert_eq!(grid[8][0], false);
    // Drawing the same sprite again toggles the pixels back off.
    assert_eq!(display.draw_sprite(0, 0, &sprite), true);
    let grid = display.state();
    for x in 0..8 {
        assert_eq!(grid[x][0], false);
    }
}

#[test]
fn display_clips_at_the_right_edge() {
    let mut display = Display::new();
    let sprite = vec![0xFF];
    // Columns 57..=63 land on screen; the eighth column would fall at
    // x = 64 and is dropped without collision or error.
    assert_eq!(display.draw_sprite(57, 0, &sprite), false);
    let grid = display.state();
    for x in 57..64 {
        assert_eq!(grid[x][0], true);
    }
    let mut lit = 0;
    for x in 0..64 {
        for y in 0..32 {
            if grid[x][y] {
                lit += 1;
            }
        }
    }
    assert_eq!(lit, 7);
}

#[test]
fn display_clips_at_the_bottom_edge() {
    let mut display = Display::new();
    let sprite = vec![0x80, 0x80, 0x80];
    assert_eq!(display.draw_sprite(0, 30, &sprite), false);
    let grid = display.state();
    assert_eq!(grid[0][30], true);
    assert_eq!(grid[0][31], true);
    let mut lit = 0;
    for x in 0..64 {
        for y in 0..32 {
            if grid[x][y] {
                lit += 1;
            }
        }
    }
    assert_eq!(lit, 2);
}

#[test]
fn display_reset_turns_everything_off() {
    let mut display = Display::new();
    let sprite = vec![0xFF, 0xFF];
    display.draw_sprite(10, 10, &sprite);
    display.reset();
    let grid = display.state();
    for x in 0..64 {
        for y in 0..32 {
            assert_eq!(grid[x][y], false);
        }
    }
}

#[test]
fn registers_wrap_at_their_width() {
    let mut r8 = Register8Bit::new();
    assert_eq!(r8.value(), 0);
    r8.write_value(200);
    assert_eq!(r8.increment_value_by(100), 44);
    assert_eq!(r8.decrement_value_by(50), 250);
    r8.reset();
    assert_eq!(r8.value(), 0);

    let mut r16 = Register16Bit::new();
    r16.write_value(65530);
    assert_eq!(r16.increment_value_by(10), 4);
    assert_eq!(r16.decrement_value_by(5), 65535);
    r16.reset();
    assert_eq!(r16.value(), 0);
}
