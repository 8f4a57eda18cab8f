//! The mathematical model of the machine: its state as plain values, and
//! what each instruction, the timers and a whole cycle do to it.

use vstd::prelude::*;
use crate::decode::{addr_of, byte_of, group_of, nibble_of, x_of, y_of};
use crate::display::{blit, collides, SCREEN_CELLS};

verus! {

/// Bytes of memory.
pub const MEMORY_SIZE: usize = 4096;

/// The address at which programs are loaded and started.
pub const PROGRAM_START: usize = 0x200;

/// Return addresses that the call stack can hold.
pub const STACK_CAPACITY: usize = 16;

/// Instruction cycles between two decrements of the timers.
pub const TIMER_DIVIDER: u8 = 4;

/// What a cycle does next.
#[derive(Copy, Clone, Debug, PartialEq, Eq, Structural)]
pub enum State {
    /// The next cycle fetches and executes an instruction.
    Running,
    /// The program counter left memory; cycles do nothing.
    Halted,
    /// Cycles poll the keys; the first key found goes to this register.
    WaitingForKey(usize),
}

/// Why the machine could not execute an instruction.
#[derive(Copy, Clone, Debug, PartialEq, Eq, Structural)]
pub enum FaultKind {
    /// The instruction word matches no instruction.
    InvalidOpcode,
    /// A call with the call stack at capacity.
    StackOverflow,
    /// A return with the call stack empty.
    StackUnderflow,
    /// The instruction word does not lie within memory.
    FetchOutOfRange,
    /// The index register points a transfer outside memory.
    MemoryOutOfRange,
    /// A key test on a register that holds no key index.
    KeyOutOfRange,
}

/// The machine's state as mathematical values.
#[verifier::ext_equal]
pub struct MachineView {
    pub memory: Seq<u8>,
    pub stack: Seq<u16>,
    pub pc: usize,
    pub index_register: u16,
    pub registers: Seq<u8>,
    pub keys: Seq<bool>,
    pub screen: Seq<bool>,
    pub delay_timer: u8,
    pub sound_timer: u8,
    pub frame_timer: u8,
    pub draw_flag: bool,
    pub audio_on: bool,
    pub state: State,
}

/// Bytes that the font takes at the start of memory: 16 glyphs of 5 rows.
pub const FONT_SIZE: usize = 80;

/// The glyphs of the digits 0 to F, five rows each, in order.
pub open spec fn font() -> Seq<u8> {
    seq![
        0xF0u8, 0x90, 0x90, 0x90, 0xF0,
        0x20, 0x60, 0x20, 0x20, 0x70,
        0xF0, 0x10, 0xF0, 0x80, 0xF0,
        0xF0, 0x10, 0xF0, 0x10, 0xF0,
        0x90, 0x90, 0xF0, 0x10, 0x10,
        0xF0, 0x80, 0xF0, 0x10, 0xF0,
        0xF0, 0x80, 0xF0, 0x90, 0xF0,
        0xF0, 0x10, 0x20, 0x40, 0x40,
        0xF0, 0x90, 0xF0, 0x90, 0xF0,
        0xF0, 0x90, 0xF0, 0x10, 0xF0,
        0xF0, 0x90, 0xF0, 0x90, 0x90,
        0xE0, 0x90, 0xE0, 0x90, 0xE0,
        0xF0, 0x80, 0x80, 0x80, 0xF0,
        0xE0, 0x90, 0x90, 0x90, 0xE0,
        0xF0, 0x80, 0xF0, 0x80, 0xF0,
        0xF0, 0x80, 0xF0, 0x80, 0x80,
    ]
}

/// The lowest index from `from` on whose key is held, if any.
pub open spec fn first_pressed(keys: Seq<bool>, from: int) -> Option<int>
    decreases keys.len() - from,
{
    if from < 0 || from >= keys.len() {
        None
    } else if keys[from] {
        Some(from)
    } else {
        first_pressed(keys, from + 1)
    }
}

/// An 8-bit counter one step further down, stopping at zero.
pub open spec fn count_down(t: u8) -> u8 {
    if t == 0 {
        0
    } else {
        (t - 1) as u8
    }
}

impl MachineView {
    /// Whether the state is well formed: the parts have their sizes, the stack
    /// is within capacity, the divider within its period, and the program
    /// counter of a machine that is not halted lies within memory.
    pub open spec fn wf(self) -> bool {
        &&& self.memory.len() == MEMORY_SIZE
        &&& self.stack.len() <= STACK_CAPACITY
        &&& self.registers.len() == 16
        &&& self.keys.len() == 16
        &&& self.screen.len() == SCREEN_CELLS
        &&& self.frame_timer < TIMER_DIVIDER
        &&& (self.state matches State::WaitingForKey(x) ==> x < 16)
        &&& (self.state != State::Halted ==> self.pc < MEMORY_SIZE)
    }

    /// The machine before its first cycle: the font at the start of memory,
    /// everything else zero, the program counter at the program start.
    pub open spec fn initial() -> MachineView {
        MachineView {
            memory: Seq::new(
                MEMORY_SIZE as nat,
                |a: int|
                    if a < FONT_SIZE {
                        font()[a]
                    } else {
                        0u8
                    },
            ),
            stack: Seq::empty(),
            pc: PROGRAM_START,
            index_register: 0,
            registers: Seq::new(16, |k: int| 0u8),
            keys: Seq::new(16, |k: int| false),
            screen: Seq::new(2048, |p: int| false),
            delay_timer: 0,
            sound_timer: 0,
            frame_timer: 0,
            draw_flag: false,
            audio_on: false,
            state: State::Running,
        }
    }

    /// Memory with `program` copied in from the program start on.
    pub open spec fn loaded(self, program: Seq<u8>) -> MachineView {
        MachineView {
            memory: Seq::new(
                MEMORY_SIZE as nat,
                |a: int|
                    if PROGRAM_START <= a < PROGRAM_START + program.len() {
                        program[a - PROGRAM_START]
                    } else {
                        self.memory[a]
                    },
            ),
            ..self
        }
    }

    /// The state with register `x` set to `value`.
    pub open spec fn with_reg(self, x: int, value: u8) -> MachineView {
        MachineView { registers: self.registers.update(x, value), ..self }
    }

    /// The state with the program counter set to `pc`.
    pub open spec fn with_pc(self, pc: usize) -> MachineView {
        MachineView { pc, ..self }
    }

    /// The state with the index register set.
    pub open spec fn with_index(self, index_register: u16) -> MachineView {
        MachineView { index_register, ..self }
    }

    /// The next instruction is skipped where `taken` holds.
    pub open spec fn skip_if(self, taken: bool) -> MachineView {
        if taken {
            self.with_pc((self.pc + 2) as usize)
        } else {
            self
        }
    }

    /// The instruction word at the program counter, high byte first.
    pub open spec fn opcode(self) -> u16 {
        (self.memory[self.pc as int] as int * 256 + self.memory[self.pc + 1] as int) as u16
    }

    /// The state after the fetch: the program counter is past the word.
    pub open spec fn fetched(self) -> MachineView {
        self.with_pc((self.pc + 2) as usize)
    }

    /// Clear: every cell dark, and a repaint owed.
    pub open spec fn op_clear(self) -> MachineView {
        MachineView { screen: Seq::new(2048, |p: int| false), draw_flag: true, ..self }
    }

    /// Return: the program counter takes the address popped off the stack.
    pub open spec fn op_return(self) -> Result<MachineView, FaultKind> {
        if self.stack.len() == 0 {
            Err(FaultKind::StackUnderflow)
        } else {
            Ok(MachineView { pc: self.stack.last() as usize, stack: self.stack.drop_last(), ..self })
        }
    }

    /// The group of clear and return, selected by the low byte.
    pub open spec fn op_zero(self, v: u16) -> Result<MachineView, FaultKind> {
        if byte_of(v) == 0xE0 {
            Ok(self.op_clear())
        } else if byte_of(v) == 0xEE {
            self.op_return()
        } else {
            Err(FaultKind::InvalidOpcode)
        }
    }

    /// Jump: the program counter takes the address.
    pub open spec fn op_goto(self, v: u16) -> MachineView {
        self.with_pc(addr_of(v) as usize)
    }

    /// Call: the return address is pushed and the program counter takes the
    /// address, unless the stack is full.
    pub open spec fn op_call(self, v: u16) -> Result<MachineView, FaultKind> {
        if self.stack.len() >= STACK_CAPACITY {
            Err(FaultKind::StackOverflow)
        } else {
            Ok(MachineView { pc: addr_of(v) as usize, stack: self.stack.push(self.pc as u16), ..self })
        }
    }

    /// Skip where register `x` equals the immediate.
    pub open spec fn op_cond_eq_const(self, v: u16) -> MachineView {
        self.skip_if(self.registers[x_of(v)] == byte_of(v))
    }

    /// Skip where register `x` differs from the immediate.
    pub open spec fn op_cond_neq_const(self, v: u16) -> MachineView {
        self.skip_if(self.registers[x_of(v)] != byte_of(v))
    }

    /// Skip where registers `x` and `y` are equal.
    pub open spec fn op_cond_eq_reg(self, v: u16) -> MachineView {
        self.skip_if(self.registers[x_of(v)] == self.registers[y_of(v)])
    }

    /// Skip where registers `x` and `y` differ.
    pub open spec fn op_cond_neq_reg(self, v: u16) -> MachineView {
        self.skip_if(self.registers[x_of(v)] != self.registers[y_of(v)])
    }

    /// Register `x` takes the immediate.
    pub open spec fn op_set_const(self, v: u16) -> MachineView {
        self.with_reg(x_of(v), byte_of(v))
    }

    /// Addition of the immediate, modulo 256; no flag.
    pub open spec fn op_add_const(self, v: u16) -> MachineView {
        self.with_reg(x_of(v), ((self.registers[x_of(v)] + byte_of(v)) % 256) as u8)
    }

    /// Register `x` takes register `y`.
    pub open spec fn op_set_reg(self, v: u16) -> MachineView {
        self.with_reg(x_of(v), self.registers[y_of(v)])
    }

    /// Register `x` takes `x | y`.
    pub open spec fn op_bit_or(self, v: u16) -> MachineView {
        self.with_reg(x_of(v), self.registers[x_of(v)] | self.registers[y_of(v)])
    }

    /// Register `x` takes `x & y`.
    pub open spec fn op_bit_and(self, v: u16) -> MachineView {
        self.with_reg(x_of(v), self.registers[x_of(v)] & self.registers[y_of(v)])
    }

    /// Register `x` takes `x ^ y`.
    pub open spec fn op_bit_xor(self, v: u16) -> MachineView {
        self.with_reg(x_of(v), self.registers[x_of(v)] ^ self.registers[y_of(v)])
    }

    /// Addition modulo 256; the flag register is 1 where the sum passed 255.
    pub open spec fn op_add_reg(self, v: u16) -> MachineView {
        let sum = self.registers[x_of(v)] + self.registers[y_of(v)];
        self.with_reg(x_of(v), (sum % 256) as u8).with_reg(
            0xF,
            if sum > 255 {
                1u8
            } else {
                0u8
            },
        )
    }

    /// `x - y` modulo 256; the flag register is 1 where a borrow occurred.
    pub open spec fn op_sub_reg(self, v: u16) -> MachineView {
        let diff = self.registers[x_of(v)] - self.registers[y_of(v)];
        self.with_reg(x_of(v), (diff % 256) as u8).with_reg(
            0xF,
            if diff < 0 {
                1u8
            } else {
                0u8
            },
        )
    }

    /// `y - x` modulo 256 into `x`; the flag register is 1 where a borrow
    /// occurred.
    pub open spec fn op_rev_sub(self, v: u16) -> MachineView {
        let diff = self.registers[y_of(v)] - self.registers[x_of(v)];
        self.with_reg(x_of(v), (diff % 256) as u8).with_reg(
            0xF,
            if diff < 0 {
                1u8
            } else {
                0u8
            },
        )
    }

    /// The flag register takes the lowest bit, then `x` is halved.
    pub open spec fn op_shift_right(self, v: u16) -> MachineView {
        let flagged = self.with_reg(0xF, (self.registers[x_of(v)] % 2) as u8);
        flagged.with_reg(x_of(v), (flagged.registers[x_of(v)] / 2) as u8)
    }

    /// The flag register takes the highest bit in place (0 or 128), then
    /// `x` is doubled modulo 256.
    pub open spec fn op_shift_left(self, v: u16) -> MachineView {
        let flagged = self.with_reg(
            0xF,
            if self.registers[x_of(v)] >= 128 {
                128u8
            } else {
                0u8
            },
        );
        flagged.with_reg(x_of(v), ((flagged.registers[x_of(v)] * 2) % 256) as u8)
    }

    /// The arithmetic group, selected by the low four bits.
    pub open spec fn op_arith(self, v: u16) -> Result<MachineView, FaultKind> {
        let n = nibble_of(v);
        if n == 0x0 {
            Ok(self.op_set_reg(v))
        } else if n == 0x1 {
            Ok(self.op_bit_or(v))
        } else if n == 0x2 {
            Ok(self.op_bit_and(v))
        } else if n == 0x3 {
            Ok(self.op_bit_xor(v))
        } else if n == 0x4 {
            Ok(self.op_add_reg(v))
        } else if n == 0x5 {
            Ok(self.op_sub_reg(v))
        } else if n == 0x6 {
            Ok(self.op_shift_right(v))
        } else if n == 0x7 {
            Ok(self.op_rev_sub(v))
        } else if n == 0xE {
            Ok(self.op_shift_left(v))
        } else {
            Err(FaultKind::InvalidOpcode)
        }
    }

    /// The index register takes the address.
    pub open spec fn op_set_index(self, v: u16) -> MachineView {
        self.with_index(addr_of(v))
    }

    /// Jump to the address plus register 0.
    pub open spec fn op_jump(self, v: u16) -> MachineView {
        self.with_pc((addr_of(v) + self.registers[0]) as usize)
    }

    /// The register takes the bits of `random` that the immediate keeps.
    pub open spec fn op_rand(self, v: u16, random: u8) -> MachineView {
        self.with_reg(x_of(v), random & byte_of(v))
    }

    /// The sprite of `n` rows at the index register is composed onto the
    /// display at the column and row that the two registers hold; the flag
    /// register tells whether it met a lit cell.
    pub open spec fn op_draw(self, v: u16) -> MachineView {
        let bx = self.registers[x_of(v)] as int;
        let by = self.registers[y_of(v)] as int;
        let index = self.index_register as int;
        let n = nibble_of(v);
        MachineView {
            screen: blit(self.screen, self.memory, index, bx, by, n),
            registers: self.registers.update(
                0xF,
                if collides(self.screen, self.memory, index, bx, by, n) {
                    1u8
                } else {
                    0u8
                },
            ),
            draw_flag: true,
            ..self
        }
    }

    /// Skip where the key that register `x` names is held (`pressed`) or is
    /// not held.
    pub open spec fn op_key_skip(self, v: u16, pressed: bool) -> Result<MachineView, FaultKind> {
        let key = self.registers[x_of(v)] as int;
        if key >= 16 {
            Err(FaultKind::KeyOutOfRange)
        } else {
            Ok(self.skip_if(self.keys[key] == pressed))
        }
    }

    /// The key group, selected by the low byte.
    pub open spec fn op_cond_key(self, v: u16) -> Result<MachineView, FaultKind> {
        if byte_of(v) == 0x9E {
            self.op_key_skip(v, true)
        } else if byte_of(v) == 0xA1 {
            self.op_key_skip(v, false)
        } else {
            Err(FaultKind::InvalidOpcode)
        }
    }

    /// Register `x` takes the delay timer.
    pub open spec fn op_get_delay(self, v: u16) -> MachineView {
        self.with_reg(x_of(v), self.delay_timer)
    }

    /// The lowest key held goes to the register; with none held the machine
    /// waits for one.
    pub open spec fn op_await_key(self, v: u16) -> MachineView {
        match first_pressed(self.keys, 0) {
            Some(k) => self.with_reg(x_of(v), k as u8),
            None => MachineView { state: State::WaitingForKey(x_of(v) as usize), ..self },
        }
    }

    /// The delay timer takes register `x`.
    pub open spec fn op_set_delay(self, v: u16) -> MachineView {
        MachineView { delay_timer: self.registers[x_of(v)], ..self }
    }

    /// The sound timer is set; a value other than zero opens the audio gate.
    pub open spec fn op_set_sound(self, v: u16) -> MachineView {
        MachineView {
            sound_timer: self.registers[x_of(v)],
            audio_on: self.audio_on || self.registers[x_of(v)] != 0,
            ..self
        }
    }

    /// The index register grows by the low twelve bits of the word, modulo
    /// 65536; the flag register tells whether it is past 0xFFF.
    pub open spec fn op_add_index(self, v: u16) -> MachineView {
        let sum = ((self.index_register + addr_of(v)) % 0x10000) as u16;
        self.with_index(sum).with_reg(
            0xF,
            if sum > 0xFFF {
                1u8
            } else {
                0u8
            },
        )
    }

    /// The index register takes the address of the glyph for register `x`:
    /// five times its value.
    pub open spec fn op_set_index_char(self, v: u16) -> MachineView {
        self.with_index((self.registers[x_of(v)] * 5) as u16)
    }

    /// Hundreds, tens and units of register `x` go to three bytes at the
    /// index register.
    pub open spec fn op_set_index_bcd(self, v: u16) -> Result<MachineView, FaultKind> {
        let i = self.index_register as int;
        let value = self.registers[x_of(v)] as int;
        if i + 2 >= MEMORY_SIZE {
            Err(FaultKind::MemoryOutOfRange)
        } else {
            Ok(
                MachineView {
                    memory: self.memory.update(i, (value / 100) as u8).update(
                        i + 1,
                        ((value / 10) % 10) as u8,
                    ).update(i + 2, (value % 10) as u8),
                    ..self
                },
            )
        }
    }

    /// Registers 0 to `x` inclusive go to memory at the index register, which
    /// then moves past them.
    pub open spec fn op_reg_dump(self, v: u16) -> Result<MachineView, FaultKind> {
        let i = self.index_register as int;
        let x = x_of(v);
        if i + x >= MEMORY_SIZE {
            Err(FaultKind::MemoryOutOfRange)
        } else {
            Ok(
                MachineView {
                    memory: Seq::new(
                        MEMORY_SIZE as nat,
                        |a: int|
                            if i <= a <= i + x {
                                self.registers[a - i]
                            } else {
                                self.memory[a]
                            },
                    ),
                    index_register: (i + x + 1) as u16,
                    ..self
                },
            )
        }
    }

    /// Registers 0 to `x` inclusive are read from memory at the index
    /// register, which then moves past them.
    pub open spec fn op_reg_load(self, v: u16) -> Result<MachineView, FaultKind> {
        let i = self.index_register as int;
        let x = x_of(v);
        if i + x >= MEMORY_SIZE {
            Err(FaultKind::MemoryOutOfRange)
        } else {
            Ok(
                MachineView {
                    registers: Seq::new(
                        16,
                        |k: int|
                            if k <= x {
                                self.memory[i + k]
                            } else {
                                self.registers[k]
                            },
                    ),
                    index_register: (i + x + 1) as u16,
                    ..self
                },
            )
        }
    }

    /// The utility group, selected by the low byte.
    pub open spec fn op_util(self, v: u16) -> Result<MachineView, FaultKind> {
        let b = byte_of(v);
        if b == 0x07 {
            Ok(self.op_get_delay(v))
        } else if b == 0x0A {
            Ok(self.op_await_key(v))
        } else if b == 0x15 {
            Ok(self.op_set_delay(v))
        } else if b == 0x18 {
            Ok(self.op_set_sound(v))
        } else if b == 0x1E {
            Ok(self.op_add_index(v))
        } else if b == 0x29 {
            Ok(self.op_set_index_char(v))
        } else if b == 0x33 {
            self.op_set_index_bcd(v)
        } else if b == 0x55 {
            self.op_reg_dump(v)
        } else if b == 0x65 {
            self.op_reg_load(v)
        } else {
            Err(FaultKind::InvalidOpcode)
        }
    }

    /// What the instruction word `v` does to a machine whose program counter
    /// is already past it. `random` is the byte that the random instruction
    /// draws.
    #[verifier::opaque]
    pub open spec fn execute(self, v: u16, random: u8) -> Result<MachineView, FaultKind> {
        let g = group_of(v);
        if g == 0x0 {
            self.op_zero(v)
        } else if g == 0x1 {
            Ok(self.op_goto(v))
        } else if g == 0x2 {
            self.op_call(v)
        } else if g == 0x3 {
            Ok(self.op_cond_eq_const(v))
        } else if g == 0x4 {
            Ok(self.op_cond_neq_const(v))
        } else if g == 0x5 {
            Ok(self.op_cond_eq_reg(v))
        } else if g == 0x6 {
            Ok(self.op_set_const(v))
        } else if g == 0x7 {
            Ok(self.op_add_const(v))
        } else if g == 0x8 {
            self.op_arith(v)
        } else if g == 0x9 {
            Ok(self.op_cond_neq_reg(v))
        } else if g == 0xA {
            Ok(self.op_set_index(v))
        } else if g == 0xB {
            Ok(self.op_jump(v))
        } else if g == 0xC {
            Ok(self.op_rand(v, random))
        } else if g == 0xD {
            Ok(self.op_draw(v))
        } else if g == 0xE {
            self.op_cond_key(v)
        } else {
            self.op_util(v)
        }
    }

    /// One cycle's share of timer work: every `TIMER_DIVIDER`-th call both
    /// timers go down by one, and the audio gate closes where the sound
    /// timer goes from 1 to 0.
    pub open spec fn tick(self) -> MachineView {
        if self.frame_timer == 0 {
            MachineView {
                delay_timer: count_down(self.delay_timer),
                sound_timer: count_down(self.sound_timer),
                audio_on: self.audio_on && self.sound_timer != 1,
                frame_timer: (TIMER_DIVIDER - 1) as u8,
                ..self
            }
        } else {
            MachineView { frame_timer: (self.frame_timer - 1) as u8, ..self }
        }
    }

    /// The machine halts where the program counter has left memory.
    pub open spec fn halt_check(self) -> MachineView {
        if self.pc >= MEMORY_SIZE {
            MachineView { state: State::Halted, ..self }
        } else {
            self
        }
    }

    /// A waiting machine resumes with the lowest held key in register `x`,
    /// or goes on waiting.
    pub open spec fn poll_key(self, x: usize) -> MachineView {
        match first_pressed(self.keys, 0) {
            Some(k) => MachineView { state: State::Running, ..self.with_reg(x as int, k as u8) },
            None => self,
        }
    }

    /// Whether a running machine can read a whole instruction word.
    pub open spec fn can_fetch(self) -> bool {
        self.pc + 1 < MEMORY_SIZE
    }

    /// Whether the next cycle executes the random instruction.
    pub open spec fn wants_random(self) -> bool {
        self.state == State::Running && self.can_fetch() && group_of(self.opcode()) == 0xC
    }

    /// One cycle: the state after it, or the fault that stopped it.
    pub open spec fn cycle(self, random: u8) -> Result<MachineView, FaultKind> {
        match self.state {
            State::Halted => Ok(self),
            State::WaitingForKey(x) => Ok(self.poll_key(x)),
            State::Running => {
                if !self.can_fetch() {
                    Err(FaultKind::FetchOutOfRange)
                } else {
                    match self.fetched().execute(self.opcode(), random) {
                        Ok(next) => Ok(next.tick().halt_check()),
                        Err(kind) => Err(kind),
                    }
                }
            },
        }
    }

    /// The state that the snapshot of a fault shows: the program counter is
    /// past the word at fault, unless the word could not be read.
    pub open spec fn at_fault(self, kind: FaultKind) -> MachineView {
        if kind == FaultKind::FetchOutOfRange {
            self
        } else {
            self.fetched()
        }
    }

    /// The word that the snapshot of a fault shows: the one at fault, or 0
    /// where it could not be read.
    pub open spec fn faulty_opcode(self, kind: FaultKind) -> u16 {
        if kind == FaultKind::FetchOutOfRange {
            0
        } else {
            self.opcode()
        }
    }
}

/// Executing an instruction keeps the sizes of the machine's parts and
/// leaves it running or waiting on a register that exists.
#[verifier::rlimit(40)]
pub proof fn lemma_execute_keeps_shape(m: MachineView, v: u16, random: u8)
    requires
        m.memory.len() == MEMORY_SIZE,
        m.stack.len() <= 16,
        m.registers.len() == 16,
        m.keys.len() == 16,
        m.screen.len() == 2048,
        m.state == State::Running,
        m.execute(v, random) is Ok,
    ensures
        m.execute(v, random).unwrap().memory.len() == MEMORY_SIZE,
        m.execute(v, random).unwrap().stack.len() <= 16,
        m.execute(v, random).unwrap().registers.len() == 16,
        m.execute(v, random).unwrap().keys.len() == 16,
        m.execute(v, random).unwrap().screen.len() == 2048,
        m.execute(v, random).unwrap().frame_timer == m.frame_timer,
        m.execute(v, random).unwrap().state != State::Halted,
        m.execute(v, random).unwrap().state matches State::WaitingForKey(x) ==> x < 16,
{
    reveal(MachineView::execute);
}

/// Executing an instruction never faults for want of a word: that fault
/// belongs to the fetch.
pub proof fn lemma_execute_faults_are_its_own(m: MachineView, v: u16, random: u8)
    ensures
        m.execute(v, random) != Err::<MachineView, FaultKind>(FaultKind::FetchOutOfRange),
{
    reveal(MachineView::execute);
}

} // verus!
