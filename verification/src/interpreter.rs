use vstd::prelude::*;

use crate::display::{blank_screen, sprite_covers, Display, SCREEN_X, SCREEN_Y};
use crate::fault::Fault;
use crate::instruction::{spec_parse, wf_instruction, Instruction};
use crate::keyboard::{Keyboard, NUMBER_OF_KEYS};
use crate::memory::{initial_memory, Memory, MEMORY_SIZE};
use crate::register::{byte_add, byte_sub, word_add, word_sub, Register16Bit, Register8Bit};
use crate::stack::{Stack, STACK_DEPTH};

verus! {

/// Number of general-purpose V registers.
pub const NUMBER_OF_V_REGISTERS: usize = 16;

/// Address at which a program image is installed and execution starts.
pub const PROGRAM_START: u16 = 0x200;

/// Time cost of clearing the display, in abstract microseconds.
pub const CLEAR_DISPLAY_TIME: u128 = 109;

/// Time cost of returns, jumps and calls.
pub const FLOW_TIME: u128 = 105;

/// Time cost of a skip comparing a register with an immediate.
pub const SKIP_IMMEDIATE_TIME: u128 = 55;

/// Time cost of a skip comparing two registers, and of the key skips.
pub const SKIP_REGISTER_TIME: u128 = 73;

/// Time cost of loading an immediate into a register.
pub const LOAD_IMMEDIATE_TIME: u128 = 27;

/// Time cost of adding an immediate to a register, and of the timer
/// transfers.
pub const ADD_IMMEDIATE_TIME: u128 = 45;

/// Time cost of the register-to-register ALU operations.
pub const ALU_TIME: u128 = 200;

/// Time cost of loading an address into I.
pub const LOAD_ADDR_TIME: u128 = 55;

/// Time cost of drawing a random byte.
pub const RANDOM_TIME: u128 = 164;

/// Base time cost of a sprite draw.
pub const DRAW_BASE_TIME: u128 = 10000;

/// Additional time cost per sprite row drawn.
pub const DRAW_ROW_TIME: u128 = 1000;

/// Time cost of adding a register to I.
pub const ADD_TO_I_TIME: u128 = 86;

/// Time cost of looking up a font sprite location.
pub const SPRITE_LOCATION_TIME: u128 = 91;

/// Time cost of the BCD decomposition.
pub const BCD_TIME: u128 = 927;

/// Time cost of a register block store or load.
pub const REGISTER_BLOCK_TIME: u128 = 605;

/// Time cost of entering the key-wait state.
pub const WAIT_FOR_KEY_TIME: u128 = 0;

/// Time cost of one poll of the key slots while waiting for a key.
pub const KEY_WAIT_POLL_TIME: u128 = 100;

/// The full abstract state of the machine: every component reduced to
/// sequences and scalars.
#[verifier::ext_equal]
pub struct State {
    /// The 4096 bytes of memory.
    pub ram: Seq<u8>,
    /// The live stack entries, bottom first.
    pub stack: Seq<u16>,
    /// The screen, with pixel `(x, y)` at index `x * SCREEN_Y + y`.
    pub pixels: Seq<bool>,
    /// The sixteen key slots.
    pub keys: Seq<bool>,
    /// The sixteen V registers.
    pub v: Seq<u8>,
    /// The I address register.
    pub i: u16,
    /// The delay timer.
    pub dt: u8,
    /// The sound timer.
    pub st: u8,
    /// The program counter.
    pub pc: u16,
    /// Whether the processor is waiting for a key press.
    pub waiting: bool,
    /// The register a key-wait will store the key index into.
    pub wait_target: u8,
    /// The last program image given to `load_program`.
    pub program: Seq<u8>,
}

impl State {
    /// Every component has its fixed size and the remembered program
    /// fits above `PROGRAM_START`.
    pub open spec fn wf(self) -> bool {
        &&& self.ram.len() == MEMORY_SIZE
        &&& self.stack.len() <= STACK_DEPTH
        &&& self.pixels.len() == SCREEN_X * SCREEN_Y
        &&& self.keys.len() == NUMBER_OF_KEYS
        &&& self.v.len() == NUMBER_OF_V_REGISTERS
        &&& self.wait_target < NUMBER_OF_V_REGISTERS
        &&& self.program.len() + PROGRAM_START <= MEMORY_SIZE
    }
}

/// Sixteen V registers all holding zero.
pub open spec fn zero_v() -> Seq<u8> {
    Seq::new(NUMBER_OF_V_REGISTERS as nat, |i: int| 0u8)
}

/// Sixteen key slots all released.
pub open spec fn no_keys() -> Seq<bool> {
    Seq::new(NUMBER_OF_KEYS as nat, |i: int| false)
}

/// The state of a freshly constructed machine, before any program is
/// loaded.
pub open spec fn initial_state() -> State {
    State {
        ram: initial_memory(),
        stack: Seq::empty(),
        pixels: blank_screen(),
        keys: no_keys(),
        v: zero_v(),
        i: 0,
        dt: 0,
        st: 0,
        pc: 0,
        waiting: false,
        wait_target: 0,
        program: Seq::empty(),
    }
}

/// Memory with a program image installed at `PROGRAM_START` over the
/// given base contents.
pub open spec fn ram_with_program(base: Seq<u8>, program: Seq<u8>) -> Seq<u8> {
    base.take(PROGRAM_START as int) + program + base.skip(PROGRAM_START + program.len())
}

/// The state right after a reset with `program` remembered: fresh
/// components, the image at `PROGRAM_START`, and the program counter
/// set there.
pub open spec fn loaded_state(program: Seq<u8>) -> State {
    State {
        ram: ram_with_program(initial_memory(), program),
        pc: PROGRAM_START,
        program: program,
        ..initial_state()
    }
}

/// The index of the first pressed key at or after `start`, if any.
pub open spec fn first_pressed(keys: Seq<bool>, start: int) -> Option<u8>
    decreases NUMBER_OF_KEYS - start,
{
    if start < 0 || start >= NUMBER_OF_KEYS {
        None
    } else if keys[start] {
        Some(start as u8)
    } else {
        first_pressed(keys, start + 1)
    }
}

/// The result of a single instruction step.
#[derive(Clone, Copy, Debug, PartialEq, Eq, Structural)]
pub struct StepResult {
    /// The abstract time the step took, in microseconds.
    pub time_passed: u128,
}

impl StepResult {
    /// The time (in abstract microseconds) that the step took; the
    /// host uses it purely for pacing.
    pub fn time_passed(&self) -> (r: u128)
        ensures
            r == self.time_passed,
    {
        self.time_passed
    }
}

/// The time a step reported, stripped of the wrapper struct.
pub open spec fn step_time(r: Result<StepResult, Fault>) -> Result<u128, Fault> {
    match r {
        Ok(step) => Ok(step.time_passed),
        Err(f) => Err(f),
    }
}

/// Relies on rand::random: draws one byte from the thread-local
/// generator. Nothing is promised of the value.
#[verifier::external_body]
fn random_byte() -> u8 {
    rand::random::<u8>()
}

/// An owned copy of a byte vector.
fn clone_bytes(bytes: &Vec<u8>) -> (r: Vec<u8>)
    ensures
        r@ == bytes@,
{
    let mut r: Vec<u8> = Vec::new();
    let mut i: usize = 0;
    while i < bytes.len()
        invariant
            i <= bytes@.len(),
            r@ == bytes@.take(i as int),
        decreases bytes@.len() - i,
    {
        r.push(bytes[i]);
        proof {
            assert(r@ =~= bytes@.take(i + 1));
        }
        i += 1;
    }
    proof {
        assert(r@ =~= bytes@);
    }
    r
}

/// The whole machine: memory, registers, stack, display, keyboard, and
/// the key-wait state, stepped one instruction at a time.
pub struct Interpreter {
    memory: Memory,
    stack: Stack,
    display: Display,
    keyboard: Keyboard,
    v_registers: Vec<Register8Bit>,
    i_register: Register16Bit,
    delay_register: Register8Bit,
    sound_register: Register8Bit,
    program_counter: Register16Bit,
    waiting_for_key_press: bool,
    key_press_result_register: u8,
    loaded_program: Vec<u8>,
}

impl View for Interpreter {
    type V = State;

    closed spec fn view(&self) -> State {
        State {
            ram: self.memory@,
            stack: self.stack@,
            pixels: self.display@,
            keys: self.keyboard@,
            v: self.v_registers@.map_values(|r: Register8Bit| r.value),
            i: self.i_register.value,
            dt: self.delay_register.value,
            st: self.sound_register.value,
            pc: self.program_counter.value,
            waiting: self.waiting_for_key_press,
            wait_target: self.key_press_result_register,
            program: self.loaded_program@,
        }
    }
}

impl Interpreter {
    /// The machine state is well-formed.
    pub open spec fn wf(self) -> bool {
        self@.wf()
    }

    /// Create a machine with all memory locations and registers in
    /// their default state.
    pub fn new() -> (r: Self)
        ensures
            r.wf(),
            r@ == initial_state(),
    {
        let mut v_registers: Vec<Register8Bit> = Vec::new();
        let mut i: usize = 0;
        while i < NUMBER_OF_V_REGISTERS
            invariant
                i <= NUMBER_OF_V_REGISTERS,
                v_registers@.len() == i,
                forall|k: int| 0 <= k < i ==> v_registers@[k].value == 0,
            decreases NUMBER_OF_V_REGISTERS - i,
        {
            v_registers.push(Register8Bit::new());
            i += 1;
        }
        let r = Interpreter {
            memory: Memory::new(),
            stack: Stack::new(),
            display: Display::new(),
            keyboard: Keyboard::new(),
            v_registers,
            i_register: Register16Bit::new(),
            delay_register: Register8Bit::new(),
            sound_register: Register8Bit::new(),
            program_counter: Register16Bit::new(),
            waiting_for_key_press: false,
            key_press_result_register: 0,
            loaded_program: Vec::new(),
        };
        proof {
            assert(r@.v =~= zero_v());
            assert(r@ =~~= initial_state());
        }
        r
    }

    /// Tell the machine that the host observed a key-down event.
    pub fn key_pressed(&mut self, key: u8)
        requires
            old(self).wf(),
            key < NUMBER_OF_KEYS,
        ensures
            final(self).wf(),
            final(self)@ == (State { keys: old(self)@.keys.update(key as int, true), ..old(self)@ }),
    {
        self.keyboard.key_pressed(key);
    }

    /// Tell the machine that the host observed a key-up event.
    pub fn key_released(&mut self, key: u8)
        requires
            old(self).wf(),
            key < NUMBER_OF_KEYS,
        ensures
            final(self).wf(),
            final(self)@ == (State {
                keys: old(self)@.keys.update(key as int, false),
                ..old(self)@
            }),
    {
        self.keyboard.key_released(key);
    }

    /// The current state of every pixel of the screen, one vector per
    /// column.
    pub fn pixel_states(&self) -> (r: Vec<Vec<bool>>)
        requires
            self.wf(),
        ensures
            r@.len() == SCREEN_X,
            forall|px: int| 0 <= px < SCREEN_X ==> #[trigger] r@[px]@.len() == SCREEN_Y,
            forall|px: int, py: int|
                0 <= px < SCREEN_X && 0 <= py < SCREEN_Y ==> r@[px]@[py] == self@.pixels[px * (
                SCREEN_Y as int) + py],
    {
        let r = self.display.state();
        proof {
            assert forall|px: int, py: int|
                0 <= px < SCREEN_X && 0 <= py < SCREEN_Y implies r@[px]@[py] == self@.pixels[px * (
            SCREEN_Y as int) + py] by {
                assert(r@[px]@[py] == self.display.pixel(px, py));
            }
        }
        r
    }

    /// Whether sound should currently be on: true iff the sound timer
    /// has not yet run down.
    pub fn sound_on(&self) -> (r: bool)
        ensures
            r == (self@.st > 0),
    {
        self.sound_register.value() > 0
    }

    /// Install a program image at `PROGRAM_START`, set the program
    /// counter there, and remember the image for reset. An image too
    /// large for memory is rejected and nothing changes.
    pub fn load_program(&mut self, program: &Vec<u8>) -> (r: Result<(), Fault>)
        requires
            old(self).wf(),
        ensures
            final(self).wf(),
            program@.len() + PROGRAM_START <= MEMORY_SIZE ==> r == Ok::<(), Fault>(()) && final(self)@ == (State {
                ram: ram_with_program(old(self)@.ram, program@),
                pc: PROGRAM_START,
                program: program@,
                ..old(self)@
            }),
            program@.len() + PROGRAM_START > MEMORY_SIZE ==> r == Err::<(), Fault>(
                Fault::ProgramTooLarge,
            ) && final(self)@ == old(self)@,
    {
        if program.len() > MEMORY_SIZE - (PROGRAM_START as usize) {
            return Err(Fault::ProgramTooLarge);
        }
        self.memory.bytes_write(PROGRAM_START as usize, program);
        self.program_counter.write_value(PROGRAM_START);
        self.loaded_program = clone_bytes(program);
        Ok(())
    }

    /// Restore every component to its initial state, then reload the
    /// program that was last provided, if any.
    pub fn reset(&mut self)
        requires
            old(self).wf(),
        ensures
            final(self).wf(),
            final(self)@ == loaded_state(old(self)@.program),
    {
        self.memory.reset();
        self.stack.reset();
        let mut i: usize = 0;
        while i < NUMBER_OF_V_REGISTERS
            invariant
                i <= NUMBER_OF_V_REGISTERS,
                self.v_registers@.len() == NUMBER_OF_V_REGISTERS,
                forall|k: int| 0 <= k < i ==> self.v_registers@[k].value == 0,
                self.memory@ == initial_memory(),
                self.stack@ == Seq::<u16>::empty(),
                self.display == old(self).display,
                self.keyboard == old(self).keyboard,
                self.loaded_program == old(self).loaded_program,
                old(self).wf(),
            decreases NUMBER_OF_V_REGISTERS - i,
        {
            self.v_registers[i] = Register8Bit::new();
            i += 1;
        }
        self.i_register.reset();
        self.delay_register.reset();
        self.sound_register.reset();
        self.program_counter.reset();
        self.display.reset();
        self.keyboard.reset();
        self.waiting_for_key_press = false;
        self.key_press_result_register = 0;
        let program = clone_bytes(&self.loaded_program);
        let _ = self.load_program(&program);
        proof {
            assert(self@.v =~= zero_v());
            assert(self@ =~~= loaded_state(old(self)@.program));
        }
    }

    /// Decrement the delay and sound timers by one each, saturating at
    /// zero. The host calls this at a fixed 60 Hz cadence.
    pub fn frequency_step(&mut self)
        requires
            old(self).wf(),
        ensures
            final(self).wf(),
            final(self)@ == (State {
                dt: if old(self)@.dt > 0 {
                    (old(self)@.dt - 1) as u8
                } else {
                    0
                },
                st: if old(self)@.st > 0 {
                    (old(self)@.st - 1) as u8
                } else {
                    0
                },
                ..old(self)@
            }),
    {
        if self.sound_register.value() > 0 {
            self.sound_register.decrement_value_by(1);
        }
        if self.delay_register.value() > 0 {
            self.delay_register.decrement_value_by(1);
        }
    }
}

/// The machine state and step result after executing one decoded
/// instruction from state `s`, whose program counter has already been
/// advanced past the instruction. `rnd` is the byte a random draw
/// returned; only the random-AND instruction reads it.
///
/// Two deliberate deviations from common practice, kept from the
/// modelled hardware: the subtract instructions set VF by a strict
/// greater-than comparison of the original operands (so equal operands
/// give VF = 0), and sprite coordinates clip at the screen edges
/// instead of wrapping. The reverse subtract wraps modulo 256 rather
/// than aborting on underflow.
pub open spec fn execute_spec(s: State, instruction: Instruction, rnd: u8) -> (State, Result<
    u128,
    Fault,
>) {
    match instruction {
        Instruction::ClearDisplay => (
            State { pixels: blank_screen(), ..s },
            Ok(CLEAR_DISPLAY_TIME),
        ),
        Instruction::Return => if s.stack.len() > 0 {
            (State { pc: s.stack.last(), stack: s.stack.drop_last(), ..s }, Ok(FLOW_TIME))
        } else {
            (s, Err(Fault::StackUnderflow))
        },
        Instruction::JumpToAddress(nnn) => (State { pc: nnn, ..s }, Ok(FLOW_TIME)),
        Instruction::CallAddress(nnn) => if s.stack.len() < STACK_DEPTH {
            (State { stack: s.stack.push(s.pc), pc: nnn, ..s }, Ok(FLOW_TIME))
        } else {
            (s, Err(Fault::StackOverflow))
        },
        Instruction::SkipIfVxEqualKk(x, kk) => (
            State {
                pc: if s.v[x as int] == kk {
                    word_add(s.pc, 2)
                } else {
                    s.pc
                },
                ..s
            },
            Ok(SKIP_IMMEDIATE_TIME),
        ),
        Instruction::SkipIfVxNotEqualKk(x, kk) => (
            State {
                pc: if s.v[x as int] != kk {
                    word_add(s.pc, 2)
                } else {
                    s.pc
                },
                ..s
            },
            Ok(SKIP_IMMEDIATE_TIME),
        ),
        Instruction::SkipIfVxEqualVy(x, y) => (
            State {
                pc: if s.v[x as int] == s.v[y as int] {
                    word_add(s.pc, 2)
                } else {
                    s.pc
                },
                ..s
            },
            Ok(SKIP_REGISTER_TIME),
        ),
        Instruction::LoadVxKk(x, kk) => (
            State { v: s.v.update(x as int, kk), ..s },
            Ok(LOAD_IMMEDIATE_TIME),
        ),
        Instruction::AddVxKk(x, kk) => (
            State { v: s.v.update(x as int, byte_add(s.v[x as int], kk)), ..s },
            Ok(ADD_IMMEDIATE_TIME),
        ),
        Instruction::LoadVxVy(x, y) => (
            State { v: s.v.update(x as int, s.v[y as int]), ..s },
            Ok(ALU_TIME),
        ),
        Instruction::OrVxVy(x, y) => (
            State { v: s.v.update(x as int, s.v[x as int] | s.v[y as int]), ..s },
            Ok(ALU_TIME),
        ),
        Instruction::AndVxVy(x, y) => (
            State { v: s.v.update(x as int, s.v[x as int] & s.v[y as int]), ..s },
            Ok(ALU_TIME),
        ),
        Instruction::XorVxVy(x, y) => (
            State { v: s.v.update(x as int, s.v[x as int] ^ s.v[y as int]), ..s },
            Ok(ALU_TIME),
        ),
        Instruction::AddVxVy(x, y) => (
            State {
                v: s.v.update(
                    15,
                    if s.v[x as int] + s.v[y as int] > 255 {
                        1u8
                    } else {
                        0u8
                    },
                ).update(x as int, byte_add(s.v[x as int], s.v[y as int])),
                ..s
            },
            Ok(ALU_TIME),
        ),
        Instruction::SubVxVy(x, y) => (
            State {
                v: s.v.update(
                    15,
                    if s.v[x as int] > s.v[y as int] {
                        1u8
                    } else {
                        0u8
                    },
                ).update(x as int, byte_sub(s.v[x as int], s.v[y as int])),
                ..s
            },
            Ok(ALU_TIME),
        ),
        Instruction::ShiftRight(x, _y) => (
            State {
                v: s.v.update(15, s.v[x as int] & 1).update(x as int, s.v[x as int] >> 1u8),
                ..s
            },
            Ok(ALU_TIME),
        ),
        Instruction::SubNVxVy(x, y) => (
            State {
                v: s.v.update(
                    15,
                    if s.v[y as int] > s.v[x as int] {
                        1u8
                    } else {
                        0u8
                    },
                ).update(x as int, byte_sub(s.v[y as int], s.v[x as int])),
                ..s
            },
            Ok(ALU_TIME),
        ),
        Instruction::ShiftLeft(x, _y) => (
            State {
                v: s.v.update(15, s.v[x as int] >> 7u8).update(x as int, s.v[x as int] << 1u8),
                ..s
            },
            Ok(ALU_TIME),
        ),
        Instruction::SkipIfVxNotEqualVy(x, y) => (
            State {
                pc: if s.v[x as int] != s.v[y as int] {
                    word_add(s.pc, 2)
                } else {
                    s.pc
                },
                ..s
            },
            Ok(SKIP_REGISTER_TIME),
        ),
        Instruction::LoadAddr(nnn) => (State { i: nnn, ..s }, Ok(LOAD_ADDR_TIME)),
        Instruction::JumpToAddressPlusV0(nnn) => (
            State { pc: (nnn + s.v[0]) as u16, ..s },
            Ok(FLOW_TIME),
        ),
        Instruction::RandomAnd(x, kk) => (
            State { v: s.v.update(x as int, kk & rnd), ..s },
            Ok(RANDOM_TIME),
        ),
        Instruction::DrawVxVyN(x, y, n) => if s.i + n <= MEMORY_SIZE {
            let sprite = s.ram.subrange(s.i as int, s.i + n);
            let x_coord = s.v[x as int];
            let y_coord = s.v[y as int];
            let collision = exists|px: int, py: int|
                0 <= px < SCREEN_X && 0 <= py < SCREEN_Y && s.pixels[px * (SCREEN_Y as int) + py]
                    && sprite_covers(x_coord, y_coord, sprite, px, py);
            let pixels = Seq::new(
                (SCREEN_X * SCREEN_Y) as nat,
                |k: int|
                    s.pixels[k] != sprite_covers(
                        x_coord,
                        y_coord,
                        sprite,
                        k / (SCREEN_Y as int),
                        k % (SCREEN_Y as int),
                    ),
            );
            (
                State {
                    pixels,
                    v: s.v.update(
                        15,
                        if collision {
                            1u8
                        } else {
                            0u8
                        },
                    ),
                    ..s
                },
                Ok((DRAW_BASE_TIME + DRAW_ROW_TIME * n) as u128),
            )
        } else {
            (s, Err(Fault::AddressOutOfRange(s.i)))
        },
        Instruction::SkipIfKeyPressed(x) => {
            let key = s.v[x as int];
            if key < NUMBER_OF_KEYS {
                (
                    State {
                        keys: s.keys.update(key as int, false),
                        pc: if s.keys[key as int] {
                            word_add(s.pc, 2)
                        } else {
                            s.pc
                        },
                        ..s
                    },
                    Ok(SKIP_REGISTER_TIME),
                )
            } else {
                (s, Err(Fault::KeyOutOfRange(key)))
            }
        },
        Instruction::SkipIfKeyNotPressed(x) => {
            let key = s.v[x as int];
            if key < NUMBER_OF_KEYS {
                (
                    State {
                        keys: s.keys.update(key as int, false),
                        pc: if !s.keys[key as int] {
                            word_add(s.pc, 2)
                        } else {
                            s.pc
                        },
                        ..s
                    },
                    Ok(SKIP_REGISTER_TIME),
                )
            } else {
                (s, Err(Fault::KeyOutOfRange(key)))
            }
        },
        Instruction::LoadDelayTimer(x) => (
            State { v: s.v.update(x as int, s.dt), ..s },
            Ok(ADD_IMMEDIATE_TIME),
        ),
        Instruction::WaitForKey(x) => (
            State { waiting: true, wait_target: x, ..s },
            Ok(WAIT_FOR_KEY_TIME),
        ),
        Instruction::SetDelayTimer(x) => (
            State { dt: s.v[x as int], ..s },
            Ok(ADD_IMMEDIATE_TIME),
        ),
        Instruction::SetSoundTimer(x) => (
            State { st: s.v[x as int], ..s },
            Ok(ADD_IMMEDIATE_TIME),
        ),
        Instruction::AddVxToI(x) => (
            State { i: word_add(s.i, s.v[x as int] as u16), ..s },
            Ok(ADD_TO_I_TIME),
        ),
        Instruction::LoadSpriteLocationToI(x) => (
            State { i: (5 * s.v[x as int]) as u16, ..s },
            Ok(SPRITE_LOCATION_TIME),
        ),
        Instruction::LoadBcdToI(x) => if s.i + 2 < MEMORY_SIZE {
            let value = s.v[x as int];
            (
                State {
                    ram: s.ram.update(s.i as int, (value / 100) % 10).update(
                        s.i as int + 1,
                        (value / 10) % 10,
                    ).update(s.i as int + 2, value % 10),
                    ..s
                },
                Ok(BCD_TIME),
            )
        } else {
            (s, Err(Fault::AddressOutOfRange(s.i)))
        },
        Instruction::LoadV0ThroughVxToI(x) => if s.i + x + 1 <= MEMORY_SIZE {
            (
                State {
                    ram: Seq::new(
                        MEMORY_SIZE as nat,
                        |k: int|
                            if s.i <= k <= s.i + x {
                                s.v[k - s.i]
                            } else {
                                s.ram[k]
                            },
                    ),
                    ..s
                },
                Ok(REGISTER_BLOCK_TIME),
            )
        } else {
            (s, Err(Fault::AddressOutOfRange(s.i)))
        },
        Instruction::LoadIToV0ThroughVx(x) => if s.i + x + 1 <= MEMORY_SIZE {
            (
                State {
                    v: Seq::new(
                        NUMBER_OF_V_REGISTERS as nat,
                        |k: int|
                            if 0 <= k <= x {
                                s.ram[s.i + k]
                            } else {
                                s.v[k]
                            },
                    ),
                    ..s
                },
                Ok(REGISTER_BLOCK_TIME),
            )
        } else {
            (s, Err(Fault::AddressOutOfRange(s.i)))
        },
        Instruction::Invalid(a, b, c, d) => (
            s,
            Err(Fault::IllegalInstruction(word_sub(s.pc, 2), (a << 4u8) | b, (c << 4u8) | d)),
        ),
    }
}

impl Interpreter {
    /// The value of register Vx.
    fn read_v(&self, x: u8) -> (r: u8)
        requires
            self.wf(),
            x < NUMBER_OF_V_REGISTERS,
        ensures
            r == self@.v[x as int],
    {
        proof {
            assert(self@.v[x as int] == self.v_registers@[x as int].value);
        }
        self.v_registers[x as usize].value
    }

    /// Write a value into register Vx.
    fn write_v(&mut self, x: u8, val: u8)
        requires
            old(self).wf(),
            x < NUMBER_OF_V_REGISTERS,
        ensures
            final(self).wf(),
            final(self)@ == (State { v: old(self)@.v.update(x as int, val), ..old(self)@ }),
    {
        self.v_registers[x as usize] = Register8Bit { value: val };
        proof {
            assert(self@.v =~= old(self)@.v.update(x as int, val));
            assert(self@ =~~= (State { v: old(self)@.v.update(x as int, val), ..old(self)@ }));
        }
    }

    /// Execute one decoded instruction. The program counter must
    /// already have been advanced past it; `random_value` is the byte a
    /// random draw returned, read only by the random-AND instruction.
    /// On a fault the machine state is left as it was.
    pub fn execute(&mut self, instruction: Instruction, random_value: u8) -> (r: Result<
        u128,
        Fault,
    >)
        requires
            old(self).wf(),
            wf_instruction(instruction),
        ensures
            final(self).wf(),
            final(self)@ == execute_spec(old(self)@, instruction, random_value).0,
            r == execute_spec(old(self)@, instruction, random_value).1,
    {
        match instruction {
            Instruction::ClearDisplay => {
                self.display.reset();
                Ok(CLEAR_DISPLAY_TIME)
            },
            Instruction::Return => {
                match self.stack.pop() {
                    Ok(address) => {
                        self.program_counter.write_value(address);
                        Ok(FLOW_TIME)
                    },
                    Err(fault) => Err(fault),
                }
            },
            Instruction::JumpToAddress(nnn) => {
                self.program_counter.write_value(nnn);
                Ok(FLOW_TIME)
            },
            Instruction::CallAddress(nnn) => {
                let return_address = self.program_counter.value();
                match self.stack.push(return_address) {
                    Ok(()) => {
                        self.program_counter.write_value(nnn);
                        Ok(FLOW_TIME)
                    },
                    Err(fault) => Err(fault),
                }
            },
            Instruction::SkipIfVxEqualKk(x, kk) => {
                if self.read_v(x) == kk {
                    self.program_counter.increment_value_by(2);
                }
                Ok(SKIP_IMMEDIATE_TIME)
            },
            Instruction::SkipIfVxNotEqualKk(x, kk) => {
                if self.read_v(x) != kk {
                    self.program_counter.increment_value_by(2);
                }
                Ok(SKIP_IMMEDIATE_TIME)
            },
            Instruction::SkipIfVxEqualVy(x, y) => {
                if self.read_v(x) == self.read_v(y) {
                    self.program_counter.increment_value_by(2);
                }
                Ok(SKIP_REGISTER_TIME)
            },
            Instruction::LoadVxKk(x, kk) => {
                self.write_v(x, kk);
                Ok(LOAD_IMMEDIATE_TIME)
            },
            Instruction::AddVxKk(x, kk) => {
                let x_value = self.read_v(x);
                self.write_v(x, x_value.wrapping_add(kk));
                Ok(ADD_IMMEDIATE_TIME)
            },
            Instruction::LoadVxVy(x, y) => {
                let y_value = self.read_v(y);
                self.write_v(x, y_value);
                Ok(ALU_TIME)
            },
            Instruction::OrVxVy(x, y) => {
                let result = self.read_v(x) | self.read_v(y);
                self.write_v(x, result);
                Ok(ALU_TIME)
            },
            Instruction::AndVxVy(x, y) => {
                let result = self.read_v(x) & self.read_v(y);
                self.write_v(x, result);
                Ok(ALU_TIME)
            },
            Instruction::XorVxVy(x, y) => {
                let result = self.read_v(x) ^ self.read_v(y);
                self.write_v(x, result);
                Ok(ALU_TIME)
            },
            Instruction::AddVxVy(x, y) => {
                let x_value = self.read_v(x);
                let y_value = self.read_v(y);
                let carry: u8 = if x_value as u16 + y_value as u16 > 255 {
                    1
                } else {
                    0
                };
                self.write_v(0xF, carry);
                self.write_v(x, x_value.wrapping_add(y_value));
                Ok(ALU_TIME)
            },
            Instruction::SubVxVy(x, y) => {
                let x_value = self.read_v(x);
                let y_value = self.read_v(y);
                let no_borrow: u8 = if x_value > y_value {
                    1
                } else {
                    0
                };
                self.write_v(0xF, no_borrow);
                self.write_v(x, x_value.wrapping_sub(y_value));
                Ok(ALU_TIME)
            },
            Instruction::ShiftRight(x, _y) => {
                let value = self.read_v(x);
                self.write_v(0xF, value & 1);
                self.write_v(x, value >> 1u8);
                Ok(ALU_TIME)
            },
            Instruction::SubNVxVy(x, y) => {
                let x_value = self.read_v(x);
                let y_value = self.read_v(y);
                let no_borrow: u8 = if y_value > x_value {
                    1
                } else {
                    0
                };
                self.write_v(0xF, no_borrow);
                self.write_v(x, y_value.wrapping_sub(x_value));
                Ok(ALU_TIME)
            },
            Instruction::ShiftLeft(x, _y) => {
                let value = self.read_v(x);
                self.write_v(0xF, value >> 7u8);
                self.write_v(x, value << 1u8);
                Ok(ALU_TIME)
            },
            Instruction::SkipIfVxNotEqualVy(x, y) => {
                if self.read_v(x) != self.read_v(y) {
                    self.program_counter.increment_value_by(2);
                }
                Ok(SKIP_REGISTER_TIME)
            },
            Instruction::LoadAddr(nnn) => {
                self.i_register.write_value(nnn);
                Ok(LOAD_ADDR_TIME)
            },
            Instruction::JumpToAddressPlusV0(nnn) => {
                let value = nnn + self.read_v(0) as u16;
                self.program_counter.write_value(value);
                Ok(FLOW_TIME)
            },
            Instruction::RandomAnd(x, kk) => {
                self.write_v(x, kk & random_value);
                Ok(RANDOM_TIME)
            },
            Instruction::DrawVxVyN(x, y, n) => {
                let memory_start = self.i_register.value();
                if memory_start as usize + n as usize > MEMORY_SIZE {
                    Err(Fault::AddressOutOfRange(memory_start))
                } else {
                    let mut sprite: Vec<u8> = Vec::new();
                    let mut row: usize = 0;
                    while row < n as usize
                        invariant
                            *self == *old(self),
                            self.wf(),
                            memory_start == self@.i,
                            memory_start as usize + n as usize <= MEMORY_SIZE,
                            row <= n as usize,
                            sprite@ == self@.ram.subrange(
                                memory_start as int,
                                memory_start as int + row,
                            ),
                        decreases n as usize - row,
                    {
                        match self.memory.byte_read(memory_start + row as u16) {
                            Ok(byte) => {
                                sprite.push(byte);
                                proof {
                                    assert(sprite@ =~= self@.ram.subrange(
                                        memory_start as int,
                                        memory_start as int + row + 1,
                                    ));
                                }
                            },
                            Err(_) => {
                                proof {
                                    assert(false);
                                }
                            },
                        }
                        row += 1;
                    }
                    let x_coord = self.read_v(x);
                    let y_coord = self.read_v(y);
                    let collision = self.display.draw_sprite(x_coord, y_coord, &sprite);
                    self.write_v(
                        0xF,
                        if collision {
                            1
                        } else {
                            0
                        },
                    );
                    proof {
                        let sy = SCREEN_Y as int;
                        let pre = old(self)@;
                        let spec_sprite = pre.ram.subrange(pre.i as int, pre.i + n);
                        let spec_state = execute_spec(pre, instruction, random_value).0;
                        assert(sprite@ == spec_sprite);
                        let spec_collision = exists|px: int, py: int|
                            0 <= px < SCREEN_X && 0 <= py < SCREEN_Y && pre.pixels[px * sy + py]
                                && sprite_covers(
                                pre.v[x as int],
                                pre.v[y as int],
                                spec_sprite,
                                px,
                                py,
                            );
                        if collision {
                            let (wx, wy) = choose|wx: int, wy: int|
                                0 <= wx < SCREEN_X && 0 <= wy < SCREEN_Y && old(self).display.pixel(
                                    wx,
                                    wy,
                                ) && sprite_covers(x_coord, y_coord, sprite@, wx, wy);
                            assert(pre.pixels[wx * sy + wy]);
                            assert(sprite_covers(pre.v[x as int], pre.v[y as int], spec_sprite, wx, wy));
                            assert(spec_collision);
                        } else {
                            if spec_collision {
                                let (wx, wy) = choose|wx: int, wy: int|
                                    0 <= wx < SCREEN_X && 0 <= wy < SCREEN_Y && pre.pixels[wx * sy
                                        + wy] && sprite_covers(
                                        pre.v[x as int],
                                        pre.v[y as int],
                                        spec_sprite,
                                        wx,
                                        wy,
                                    );
                                assert(old(self).display.pixel(wx, wy));
                                assert(sprite_covers(x_coord, y_coord, sprite@, wx, wy));
                                assert(false);
                            }
                        }
                        assert(collision == spec_collision);
                        assert forall|k: int|
                            0 <= k < SCREEN_X * SCREEN_Y implies self@.pixels[k]
                            == spec_state.pixels[k] by {
                            let px = k / sy;
                            let py = k % sy;
                            assert(0 <= py < sy);
                            assert(px * sy + py == k);
                            assert(0 <= px < SCREEN_X);
                            assert(self.display.pixel(px, py) == (old(self).display.pixel(px, py)
                                != sprite_covers(x_coord, y_coord, sprite@, px, py)));
                        }
                        assert(self@.pixels =~= spec_state.pixels);
                        assert(self@.v =~= spec_state.v);
                        assert(self@ =~~= spec_state);
                    }
                    Ok(DRAW_BASE_TIME + DRAW_ROW_TIME * (n as u128))
                }
            },
            Instruction::SkipIfKeyPressed(x) => {
                let key = self.read_v(x);
                if key < NUMBER_OF_KEYS as u8 {
                    if self.keyboard.key_state(key) {
                        self.program_counter.increment_value_by(2);
                    }
                    Ok(SKIP_REGISTER_TIME)
                } else {
                    Err(Fault::KeyOutOfRange(key))
                }
            },
            Instruction::SkipIfKeyNotPressed(x) => {
                let key = self.read_v(x);
                if key < NUMBER_OF_KEYS as u8 {
                    if !self.keyboard.key_state(key) {
                        self.program_counter.increment_value_by(2);
                    }
                    Ok(SKIP_REGISTER_TIME)
                } else {
                    Err(Fault::KeyOutOfRange(key))
                }
            },
            Instruction::LoadDelayTimer(x) => {
                let value = self.delay_register.value();
                self.write_v(x, value);
                Ok(ADD_IMMEDIATE_TIME)
            },
            Instruction::WaitForKey(x) => {
                self.waiting_for_key_press = true;
                self.key_press_result_register = x;
                Ok(WAIT_FOR_KEY_TIME)
            },
            Instruction::SetDelayTimer(x) => {
                let value = self.read_v(x);
                self.delay_register.write_value(value);
                Ok(ADD_IMMEDIATE_TIME)
            },
            Instruction::SetSoundTimer(x) => {
                let value = self.read_v(x);
                self.sound_register.write_value(value);
                Ok(ADD_IMMEDIATE_TIME)
            },
            Instruction::AddVxToI(x) => {
                let value = self.read_v(x);
                self.i_register.increment_value_by(value as u16);
                Ok(ADD_TO_I_TIME)
            },
            Instruction::LoadSpriteLocationToI(x) => {
                let digit = self.read_v(x);
                self.i_register.write_value(5 * digit as u16);
                Ok(SPRITE_LOCATION_TIME)
            },
            Instruction::LoadBcdToI(x) => {
                let location = self.i_register.value();
                if location as usize + 2 < MEMORY_SIZE {
                    let value = self.read_v(x);
                    let hundreds = (value / 100) % 10;
                    let tens = (value / 10) % 10;
                    let ones = value % 10;
                    let _ = self.memory.byte_write(location, hundreds);
                    let _ = self.memory.byte_write(location + 1, tens);
                    let _ = self.memory.byte_write(location + 2, ones);
                    Ok(BCD_TIME)
                } else {
                    Err(Fault::AddressOutOfRange(location))
                }
            },
            Instruction::LoadV0ThroughVxToI(x) => {
                let start = self.i_register.value();
                if start as usize + x as usize + 1 > MEMORY_SIZE {
                    Err(Fault::AddressOutOfRange(start))
                } else {
                    let mut idx: usize = 0;
                    while idx <= x as usize
                        invariant
                            old(self).wf(),
                            self.wf(),
                            x < NUMBER_OF_V_REGISTERS,
                            start == old(self)@.i,
                            start as usize + x as usize + 1 <= MEMORY_SIZE,
                            idx <= x as usize + 1,
                            forall|k: int|
                                0 <= k < MEMORY_SIZE && !(start <= k < start + idx)
                                    ==> self@.ram[k] == old(self)@.ram[k],
                            forall|k: int|
                                start <= k < start + idx ==> self@.ram[k] == old(self)@.v[k
                                    - start],
                            self@ == (State { ram: self@.ram, ..old(self)@ }),
                        decreases x as usize + 1 - idx,
                    {
                        let value = self.read_v(idx as u8);
                        let _ = self.memory.byte_write(start + idx as u16, value);
                        idx += 1;
                    }
                    proof {
                        assert(self@.ram =~= Seq::new(
                            MEMORY_SIZE as nat,
                            |k: int|
                                if old(self)@.i <= k <= old(self)@.i + x {
                                    old(self)@.v[k - old(self)@.i]
                                } else {
                                    old(self)@.ram[k]
                                },
                        ));
                    }
                    Ok(REGISTER_BLOCK_TIME)
                }
            },
            Instruction::LoadIToV0ThroughVx(x) => {
                let start = self.i_register.value();
                if start as usize + x as usize + 1 > MEMORY_SIZE {
                    Err(Fault::AddressOutOfRange(start))
                } else {
                    let mut idx: usize = 0;
                    while idx <= x as usize
                        invariant
                            old(self).wf(),
                            self.wf(),
                            x < NUMBER_OF_V_REGISTERS,
                            start == old(self)@.i,
                            start as usize + x as usize + 1 <= MEMORY_SIZE,
                            idx <= x as usize + 1,
                            forall|k: int|
                                0 <= k < NUMBER_OF_V_REGISTERS && !(k < idx) ==> self@.v[k] == old(
                                    self,
                                )@.v[k],
                            forall|k: int|
                                0 <= k < idx ==> self@.v[k] == old(self)@.ram[start + k],
                            self@ == (State { v: self@.v, ..old(self)@ }),
                        decreases x as usize + 1 - idx,
                    {
                        match self.memory.byte_read(start + idx as u16) {
                            Ok(byte) => {
                                self.write_v(idx as u8, byte);
                            },
                            Err(_) => {
                                proof {
                                    assert(false);
                                }
                            },
                        }
                        idx += 1;
                    }
                    proof {
                        assert(self@.v =~= Seq::new(
                            NUMBER_OF_V_REGISTERS as nat,
                            |k: int|
                                if 0 <= k <= x {
                                    old(self)@.ram[old(self)@.i + k]
                                } else {
                                    old(self)@.v[k]
                                },
                        ));
                    }
                    Ok(REGISTER_BLOCK_TIME)
                }
            },
            Instruction::Invalid(a, b, c, d) => {
                let address = self.program_counter.value().wrapping_sub(2);
                Err(Fault::IllegalInstruction(address, (a << 4u8) | b, (c << 4u8) | d))
            },
        }
    }
}

/// The state after fetching one instruction: the program counter
/// advanced past it, everything else unchanged.
pub open spec fn fetch_advanced(s: State) -> State {
    State { pc: word_add(s.pc, 2), ..s }
}

/// The instruction encoded by the word at the program counter.
pub open spec fn fetched_instruction(s: State) -> Instruction {
    spec_parse(s.ram[s.pc as int], s.ram[s.pc as int + 1])
}

impl Interpreter {
    /// Process one step. While waiting for a key press, poll the
    /// sixteen key slots in ascending order: the first pressed key is
    /// consumed, its index stored in the wait-target register, and the
    /// waiting state cleared; with no key pressed the machine stays
    /// waiting. Otherwise fetch the word at the program counter,
    /// advance the counter by two, decode and execute. The result is
    /// the abstract time the step took, or the fault it raised, with
    /// the machine state left intact on a fault.
    pub fn instruction_step(&mut self) -> (r: Result<StepResult, Fault>)
        requires
            old(self).wf(),
        ensures
            final(self).wf(),
            old(self)@.waiting ==> r == Ok::<StepResult, Fault>(
                (StepResult { time_passed: KEY_WAIT_POLL_TIME }),
            ) && (match first_pressed(old(self)@.keys, 0) {
                Some(key) => final(self)@ == (State {
                    keys: old(self)@.keys.update(key as int, false),
                    v: old(self)@.v.update(old(self)@.wait_target as int, key),
                    waiting: false,
                    ..old(self)@
                }),
                None => final(self)@ == old(self)@,
            }),
            !old(self)@.waiting && old(self)@.pc + 1 >= MEMORY_SIZE ==> r == Err::<
                StepResult,
                Fault,
            >(Fault::AddressOutOfRange(old(self)@.pc)) && final(self)@ == old(self)@,
            !old(self)@.waiting && old(self)@.pc + 1 < MEMORY_SIZE ==> (exists|b: u8|
                final(self)@ == (#[trigger] execute_spec(
                    fetch_advanced(old(self)@),
                    fetched_instruction(old(self)@),
                    b,
                )).0 && step_time(r) == execute_spec(
                    fetch_advanced(old(self)@),
                    fetched_instruction(old(self)@),
                    b,
                ).1),
    {
        if self.waiting_for_key_press {
            let target = self.key_press_result_register;
            let mut k: usize = 0;
            while k < NUMBER_OF_KEYS
                invariant
                    old(self).wf(),
                    self.wf(),
                    old(self)@.waiting,
                    target == old(self)@.wait_target,
                    k <= NUMBER_OF_KEYS,
                    self@ == old(self)@,
                    first_pressed(old(self)@.keys, 0) == first_pressed(
                        old(self)@.keys,
                        k as int,
                    ),
                decreases NUMBER_OF_KEYS - k,
            {
                let ghost pre_loop = self@;
                if self.keyboard.key_state(k as u8) {
                    proof {
                        assert(old(self)@.keys[k as int]);
                        assert(first_pressed(old(self)@.keys, k as int) == Some(k as u8));
                    }
                    self.write_v(target, k as u8);
                    self.waiting_for_key_press = false;
                    proof {
                        assert(self@ =~~= (State {
                            keys: old(self)@.keys.update(k as int, false),
                            v: old(self)@.v.update(old(self)@.wait_target as int, k as u8),
                            waiting: false,
                            ..old(self)@
                        }));
                    }
                    return Ok(StepResult { time_passed: KEY_WAIT_POLL_TIME });
                }
                proof {
                    assert(self@.keys =~= pre_loop.keys);
                    assert(self@ =~~= old(self)@);
                    assert(first_pressed(old(self)@.keys, k as int) == first_pressed(
                        old(self)@.keys,
                        k as int + 1,
                    ));
                }
                k += 1;
            }
            return Ok(StepResult { time_passed: KEY_WAIT_POLL_TIME });
        }
        let pc = self.program_counter.value();
        let data = match self.memory.two_byte_read(pc) {
            Ok(pair) => pair,
            Err(fault) => {
                return Err(fault);
            },
        };
        let instruction = Instruction::parse(data);
        self.program_counter.increment_value_by(2);
        let random_value = random_byte();
        let ghost fetched = self@;
        let result = self.execute(instruction, random_value);
        proof {
            assert(fetched == fetch_advanced(old(self)@));
            assert(instruction == fetched_instruction(old(self)@));
            assert(self@ == execute_spec(fetched, instruction, random_value).0);
        }
        match result {
            Ok(time) => Ok(StepResult { time_passed: time }),
            Err(fault) => Err(fault),
        }
    }
}

impl Interpreter {
    /// The value of general register Vx, for hosts and diagnostics.
    pub fn v_register(&self, index: u8) -> (r: u8)
        requires
            self.wf(),
            index < NUMBER_OF_V_REGISTERS,
        ensures
            r == self@.v[index as int],
    {
        self.read_v(index)
    }

    /// The value of the I address register.
    pub fn address_register(&self) -> (r: u16)
        ensures
            r == self@.i,
    {
        self.i_register.value()
    }

    /// The value of the delay timer.
    pub fn delay_timer(&self) -> (r: u8)
        ensures
            r == self@.dt,
    {
        self.delay_register.value()
    }

    /// The value of the sound timer.
    pub fn sound_timer(&self) -> (r: u8)
        ensures
            r == self@.st,
    {
        self.sound_register.value()
    }

    /// The current program counter.
    pub fn program_counter(&self) -> (r: u16)
        ensures
            r == self@.pc,
    {
        self.program_counter.value()
    }

    /// Whether the processor is in the waiting-for-key state.
    pub fn waiting_for_key(&self) -> (r: bool)
        ensures
            r == self@.waiting,
    {
        self.waiting_for_key_press
    }

    /// The byte of memory at `address`, bounds-checked.
    pub fn read_memory(&self, address: u16) -> (r: Result<u8, Fault>)
        requires
            self.wf(),
        ensures
            address < MEMORY_SIZE ==> r == Ok::<u8, Fault>(self@.ram[address as int]),
            address >= MEMORY_SIZE ==> r == Err::<u8, Fault>(Fault::AddressOutOfRange(address)),
    {
        self.memory.byte_read(address)
    }
}

} // verus!
