//! The executable machine.

use vstd::prelude::*;
use crate::decode::{op_addr, op_byte, op_group, op_nibble, op_x, op_y, OpCode};
use crate::display::{
    blit, collides, collides_upto, row_bit, sprite_lights, sprite_lights_upto, SCREEN_HEIGHT,
    SCREEN_WIDTH,
};
use crate::fault::{Fault, LoadError};
use crate::model::{
    first_pressed, font, lemma_execute_faults_are_its_own, lemma_execute_keeps_shape, FaultKind,
    MachineView, State, FONT_SIZE, MEMORY_SIZE, PROGRAM_START, STACK_CAPACITY, TIMER_DIVIDER,
};
use crate::random::random_byte;

verus! {

/// A CHIP-8 machine.
pub struct Machine {
    pub memory: [u8; 4096],
    pub stack: Vec<u16>,
    pub pc: usize,
    pub index_register: u16,
    pub registers: [u8; 16],
    pub keys: [bool; 16],
    pub screen: [bool; 2048],
    pub delay_timer: u8,
    pub sound_timer: u8,
    pub frame_timer: u8,
    /// The display changed and is owed a repaint.
    pub draw_flag: bool,
    /// The audio gate: whether the tone is to sound.
    pub audio_on: bool,
    pub state: State,
}

impl View for Machine {
    type V = MachineView;

    open spec fn view(&self) -> MachineView {
        MachineView {
            memory: self.memory@,
            stack: self.stack@,
            pc: self.pc,
            index_register: self.index_register,
            registers: self.registers@,
            keys: self.keys@,
            screen: self.screen@,
            delay_timer: self.delay_timer,
            sound_timer: self.sound_timer,
            frame_timer: self.frame_timer,
            draw_flag: self.draw_flag,
            audio_on: self.audio_on,
            state: self.state,
        }
    }
}

impl Machine {
    /// Whether the machine is well formed: see `MachineView::wf`.
    pub open spec fn wf(&self) -> bool {
        self@.wf()
    }

    /// Tests whether the machine is well formed.
    pub fn is_well_formed(&self) -> (r: bool)
        ensures
            r == self.wf(),
    {
        let state_fits = match self.state {
            State::Halted => true,
            State::Running => self.pc < MEMORY_SIZE,
            State::WaitingForKey(x) => x < 16 && self.pc < MEMORY_SIZE,
        };
        state_fits && self.stack.len() <= STACK_CAPACITY && self.frame_timer < TIMER_DIVIDER
    }

    /// The glyphs of the font as bytes.
    pub fn fontset() -> (r: [u8; 80])
        ensures
            r@ == font(),
    {
        let r: [u8; 80] = [
            0xF0, 0x90, 0x90, 0x90, 0xF0,
            0x20, 0x60, 0x20, 0x20, 0x70,
            0xF0, 0x10, 0xF0, 0x80, 0xF0,
            0xF0, 0x10, 0xF0, 0x10, 0xF0,
            0x90, 0x90, 0xF0, 0x10, 0x10,
            0xF0, 0x80, 0xF0, 0x10, 0xF0,
            0xF0, 0x80, 0xF0, 0x90, 0xF0,
            0xF0, 0x10, 0x20, 0x40, 0x40,
            0xF0, 0x90, 0xF0, 0x90, 0xF0,
            0xF0, 0x90, 0xF0, 0x10, 0xF0,
            0xF0, 0x90, 0xF0, 0x90, 0x90,
            0xE0, 0x90, 0xE0, 0x90, 0xE0,
            0xF0, 0x80, 0x80, 0x80, 0xF0,
            0xE0, 0x90, 0x90, 0x90, 0xE0,
            0xF0, 0x80, 0xF0, 0x80, 0xF0,
            0xF0, 0x80, 0xF0, 0x80, 0x80,
        ];
        assert(r@ =~= font());
        r
    }

    /// A machine ready for a program: the font in memory, the audio gate
    /// closed, running from the program start.
    pub fn new() -> (m: Machine)
        ensures
            m@ == MachineView::initial(),
            m.wf(),
    {
        let glyphs = Self::fontset();
        let mut memory: [u8; 4096] = [0;4096];
        let mut i: usize = 0;
        while i < FONT_SIZE
            invariant
                i <= FONT_SIZE,
                glyphs@ == font(),
                forall|a: int|
                    0 <= a < 4096 ==> memory@[a] == if a < i {
                        font()[a]
                    } else {
                        0u8
                    },
            decreases FONT_SIZE - i,
        {
            memory[i] = glyphs[i];
            i += 1;
        }
        let m = Machine {
            memory,
            stack: Vec::with_capacity(STACK_CAPACITY),
            pc: PROGRAM_START,
            index_register: 0,
            registers: [0;16],
            keys: [false;16],
            screen: [false;2048],
            delay_timer: 0,
            sound_timer: 0,
            frame_timer: 0,
            draw_flag: false,
            audio_on: false,
            state: State::Running,
        };
        proof {
            let init = MachineView::initial();
            assert(m@.memory =~= init.memory);
            assert(m@.stack =~= init.stack);
            assert(m@.registers =~= init.registers);
            assert(m@.keys =~= init.keys);
            assert(m@.screen =~= init.screen);
        }
        m
    }

    /// Copies `program` into memory from the program start on. A program
    /// that does not fit is refused and nothing is copied.
    pub fn load_program(&mut self, program: &[u8]) -> (r: Result<(), LoadError>)
        ensures
            program@.len() <= MEMORY_SIZE - PROGRAM_START ==> r is Ok
                && final(self)@ == old(self)@.loaded(program@),
            program@.len() > MEMORY_SIZE - PROGRAM_START ==> r == Err::<(), LoadError>(
                LoadError::ProgramTooLarge,
            ) && final(self)@ == old(self)@,
    {
        if program.len() > MEMORY_SIZE - PROGRAM_START {
            return Err(LoadError::ProgramTooLarge);
        }
        let ghost pre = self@;
        let mut i: usize = 0;
        while i < program.len()
            invariant
                i <= program@.len() <= MEMORY_SIZE - PROGRAM_START,
                pre.memory.len() == 4096,
                self@ == (MachineView { memory: self.memory@, ..pre }),
                forall|a: int|
                    0 <= a < 4096 ==> self.memory@[a] == if PROGRAM_START <= a < PROGRAM_START + i {
                        program@[a - PROGRAM_START]
                    } else {
                        pre.memory[a]
                    },
            decreases program@.len() - i,
        {
            self.memory[PROGRAM_START + i] = program[i];
            i += 1;
        }
        assert(self.memory@ =~= pre.loaded(program@).memory);
        Ok(())
    }

    /// The renderer has painted the display.
    pub fn draw_complete(&mut self)
        ensures
            final(self)@ == (MachineView { draw_flag: false, ..old(self)@ }),
    {
        self.draw_flag = false;
    }

    /// A key goes down: its latch is set.
    pub fn key_pressed(&mut self, key: usize)
        requires
            key < 16,
        ensures
            final(self)@ == (MachineView { keys: old(self)@.keys.update(key as int, true), ..old(self)@ }),
    {
        self.keys[key] = true;
    }

    /// A key goes up: its latch is cleared.
    pub fn key_released(&mut self, key: usize)
        requires
            key < 16,
        ensures
            final(self)@ == (MachineView {
                keys: old(self)@.keys.update(key as int, false),
                ..old(self)@
            }),
    {
        self.keys[key] = false;
    }

    /// Reads the instruction word at the program counter, high byte first,
    /// and moves the program counter past it.
    pub fn fetch_opcode(&mut self) -> (opcode: OpCode)
        requires
            old(self)@.can_fetch(),
        ensures
            opcode == old(self)@.opcode(),
            final(self)@ == old(self)@.fetched(),
    {
        let opcode = self.memory[self.pc] as u16 * 256 + self.memory[self.pc + 1] as u16;
        self.pc += 2;
        opcode
    }

    /// The diagnostic snapshot of the machine for a fault at the word `v`.
    pub fn fault(&self, kind: FaultKind, v: OpCode) -> (f: Fault)
        ensures
            f.describes(self@, kind, v),
    {
        let mut stack: Vec<u16> = Vec::new();
        let mut i: usize = 0;
        while i < self.stack.len()
            invariant
                i <= self.stack@.len(),
                stack@ == self.stack@.subrange(0, i as int),
            decreases self.stack@.len() - i,
        {
            stack.push(self.stack[i]);
            assert(stack@ =~= self.stack@.subrange(0, i + 1));
            i += 1;
        }
        assert(stack@ =~= self.stack@);
        Fault {
            kind,
            opcode: v,
            pc: self.pc,
            index_register: self.index_register,
            registers: self.registers,
            stack,
        }
    }

    /// The fault for a word that matches no instruction.
    pub fn invalid_opcode(&self, v: OpCode) -> (f: Fault)
        ensures
            f.describes(self@, FaultKind::InvalidOpcode, v),
    {
        self.fault(FaultKind::InvalidOpcode, v)
    }

    /// Jump: the program counter takes the address.
    pub fn goto(&mut self, v: OpCode)
        ensures
            final(self)@ == old(self)@.op_goto(v),
    {
        self.pc = op_addr(v) as usize;
    }

    /// Call: the return address is pushed and the program counter takes the
    /// address, unless the stack is full.
    pub fn call(&mut self, v: OpCode) -> (r: Result<(), FaultKind>)
        requires
            old(self).pc < 0x10000,
        ensures
            match old(self)@.op_call(v) {
                Ok(m) => r is Ok && final(self)@ == m,
                Err(k) => r == Err::<(), FaultKind>(k) && final(self)@ == old(self)@,
            },
    {
        if self.stack.len() >= STACK_CAPACITY {
            return Err(FaultKind::StackOverflow);
        }
        self.stack.push(self.pc as u16);
        self.pc = op_addr(v) as usize;
        Ok(())
    }

    /// Skips the next instruction where register `x` equals the immediate.
    pub fn cond_eq_const(&mut self, v: OpCode)
        requires
            old(self).pc <= usize::MAX - 2,
        ensures
            final(self)@ == old(self)@.op_cond_eq_const(v),
    {
        let x = op_x(v);
        let n = op_byte(v);
        if self.registers[x] == n {
            self.pc += 2;
        }
    }

    /// Skips the next instruction where register `x` differs from the immediate.
    pub fn cond_neq_const(&mut self, v: OpCode)
        requires
            old(self).pc <= usize::MAX - 2,
        ensures
            final(self)@ == old(self)@.op_cond_neq_const(v),
    {
        let x = op_x(v);
        let n = op_byte(v);
        if self.registers[x] != n {
            self.pc += 2;
        }
    }

    /// Skips the next instruction where registers `x` and `y` are equal.
    pub fn cond_eq_reg(&mut self, v: OpCode)
        requires
            old(self).pc <= usize::MAX - 2,
        ensures
            final(self)@ == old(self)@.op_cond_eq_reg(v),
    {
        let x = op_x(v);
        let y = op_y(v);
        if self.registers[x] == self.registers[y] {
            self.pc += 2;
        }
    }

    /// Skips the next instruction where registers `x` and `y` differ.
    pub fn cond_neq_reg(&mut self, v: OpCode)
        requires
            old(self).pc <= usize::MAX - 2,
        ensures
            final(self)@ == old(self)@.op_cond_neq_reg(v),
    {
        let x = op_x(v);
        let y = op_y(v);
        if self.registers[x] != self.registers[y] {
            self.pc += 2;
        }
    }

    /// Register `x` takes the immediate.
    pub fn set_const(&mut self, v: OpCode)
        ensures
            final(self)@ == old(self)@.op_set_const(v),
    {
        let x = op_x(v);
        let n = op_byte(v);
        self.registers[x] = n;
    }

    /// Register `x` grows by the immediate, modulo 256; the flag register is left alone.
    pub fn add_const(&mut self, v: OpCode)
        ensures
            final(self)@ == old(self)@.op_add_const(v),
    {
        let x = op_x(v);
        let n = op_byte(v);
        let sum: u16 = self.registers[x] as u16 + n as u16;
        self.registers[x] = (sum % 256) as u8;
    }

    /// Register `x` takes register `y`.
    pub fn set_reg(&mut self, v: OpCode)
        ensures
            final(self)@ == old(self)@.op_set_reg(v),
    {
        let x = op_x(v);
        let y = op_y(v);
        self.registers[x] = self.registers[y];
    }

    /// Register `x` takes `x | y`.
    pub fn bit_or(&mut self, v: OpCode)
        ensures
            final(self)@ == old(self)@.op_bit_or(v),
    {
        let x = op_x(v);
        let y = op_y(v);
        self.registers[x] = self.registers[x] | self.registers[y];
    }

    /// Register `x` takes `x & y`.
    pub fn bit_and(&mut self, v: OpCode)
        ensures
            final(self)@ == old(self)@.op_bit_and(v),
    {
        let x = op_x(v);
        let y = op_y(v);
        self.registers[x] = self.registers[x] & self.registers[y];
    }

    /// Register `x` takes `x ^ y`.
    pub fn bit_xor(&mut self, v: OpCode)
        ensures
            final(self)@ == old(self)@.op_bit_xor(v),
    {
        let x = op_x(v);
        let y = op_y(v);
        self.registers[x] = self.registers[x] ^ self.registers[y];
    }

    /// Register `x` takes `x + y` modulo 256; the flag register tells of the carry.
    pub fn add_reg(&mut self, v: OpCode)
        ensures
            final(self)@ == old(self)@.op_add_reg(v),
    {
        let x = op_x(v);
        let y = op_y(v);
        let sum: u16 = self.registers[x] as u16 + self.registers[y] as u16;
        self.registers[x] = (sum % 256) as u8;
        self.registers[0xF] = if sum > 255 { 1 } else { 0 };
    }

    /// Register `x` takes `x - y` modulo 256; the flag register tells of the borrow.
    pub fn sub_reg(&mut self, v: OpCode)
        ensures
            final(self)@ == old(self)@.op_sub_reg(v),
    {
        let x = op_x(v);
        let y = op_y(v);
        let a: u8 = self.registers[x];
        let b: u8 = self.registers[y];
        if a >= b {
            self.registers[x] = a - b;
            self.registers[0xF] = 0;
        } else {
            self.registers[x] = (256 + a as u16 - b as u16) as u8;
            self.registers[0xF] = 1;
        }
    }

    /// The flag register takes the lowest bit of register `x`, which is then halved.
    pub fn shift_right(&mut self, v: OpCode)
        ensures
            final(self)@ == old(self)@.op_shift_right(v),
    {
        let x = op_x(v);
        self.registers[0xF] = self.registers[x] % 2;
        self.registers[x] = self.registers[x] / 2;
    }

    /// The flag register takes the highest bit of register `x` in place, which is
    /// then doubled modulo 256.
    pub fn shift_left(&mut self, v: OpCode)
        ensures
            final(self)@ == old(self)@.op_shift_left(v),
    {
        let x = op_x(v);
        self.registers[0xF] = if self.registers[x] >= 128 { 128 } else { 0 };
        let doubled: u16 = self.registers[x] as u16 * 2;
        self.registers[x] = (doubled % 256) as u8;
    }

    /// Register `x` takes `y - x` modulo 256; the flag register tells of the borrow.
    pub fn rev_sub(&mut self, v: OpCode)
        ensures
            final(self)@ == old(self)@.op_rev_sub(v),
    {
        let x = op_x(v);
        let y = op_y(v);
        let a: u8 = self.registers[x];
        let b: u8 = self.registers[y];
        if b >= a {
            self.registers[x] = b - a;
            self.registers[0xF] = 0;
        } else {
            self.registers[x] = (256 + b as u16 - a as u16) as u8;
            self.registers[0xF] = 1;
        }
    }

    /// The arithmetic group, selected by the low four bits.
    pub fn arith(&mut self, v: OpCode) -> (r: Result<(), FaultKind>)
        ensures
            match old(self)@.op_arith(v) {
                Ok(m) => r is Ok && final(self)@ == m,
                Err(k) => r == Err::<(), FaultKind>(k) && final(self)@ == old(self)@,
            },
    {
        let n = op_nibble(v);
        if n == 0x0 {
            self.set_reg(v);
        } else if n == 0x1 {
            self.bit_or(v);
        } else if n == 0x2 {
            self.bit_and(v);
        } else if n == 0x3 {
            self.bit_xor(v);
        } else if n == 0x4 {
            self.add_reg(v);
        } else if n == 0x5 {
            self.sub_reg(v);
        } else if n == 0x6 {
            self.shift_right(v);
        } else if n == 0x7 {
            self.rev_sub(v);
        } else if n == 0xE {
            self.shift_left(v);
        } else {
            return Err(FaultKind::InvalidOpcode);
        }
        Ok(())
    }

    /// The index register takes the address.
    pub fn set_index(&mut self, v: OpCode)
        ensures
            final(self)@ == old(self)@.op_set_index(v),
    {
        self.index_register = op_addr(v);
    }

    /// Jump to the address plus register 0.
    pub fn jump(&mut self, v: OpCode)
        ensures
            final(self)@ == old(self)@.op_jump(v),
    {
        self.pc = op_addr(v) as usize + self.registers[0x0] as usize;
    }

    /// The random instruction, for the byte `random` that was drawn.
    pub fn rand(&mut self, v: OpCode, random: u8)
        ensures
            final(self)@ == old(self)@.op_rand(v, random),
    {
        let x = op_x(v);
        let n = op_byte(v);
        self.registers[x] = random & n;
    }

    /// Draw: composes the sprite onto the display by XOR.
    #[verifier::rlimit(40)]
    pub fn draw(&mut self, v: OpCode)
        ensures
            final(self)@ == old(self)@.op_draw(v),
    {
        let x = op_x(v);
        let y = op_y(v);
        let base_y = self.registers[y] as usize;
        let base_x = self.registers[x] as usize;
        let n = op_nibble(v);
        let index = self.index_register as usize;
        let ghost pre = self@;
        let mut hit = false;
        let mut i: usize = 0;
        while i < n
            invariant
                i <= n < 16,
                pre.memory.len() == 4096,
                pre.screen.len() == 2048,
                base_x < 256,
                base_y < 256,
                index < 65536,
                self@ == (MachineView { screen: self.screen@, ..pre }),
                forall|p: int|
                    0 <= p < 2048 ==> self.screen@[p] == (pre.screen[p] != sprite_lights_upto(
                        pre.memory,
                        index as int,
                        base_x as int,
                        base_y as int,
                        i as int,
                        0,
                        p / 64,
                        p % 64,
                    )),
                hit == collides_upto(
                    pre.screen,
                    pre.memory,
                    index as int,
                    base_x as int,
                    base_y as int,
                    i as int,
                    0,
                ),
            decreases n - i,
        {
            let mut j: usize = 0;
            if index + i < MEMORY_SIZE && base_y + i < SCREEN_HEIGHT {
                let sprite = self.memory[index + i];
                let sprite_y = base_y + i;
                while j < 8
                    invariant
                        j <= 8,
                        i < n < 16,
                        base_x < 256,
                        sprite_y == base_y + i,
                        sprite_y < 32,
                        index + i < 4096,
                        sprite == pre.memory[index + i],
                        pre.memory.len() == 4096,
                        pre.screen.len() == 2048,
                        self@ == (MachineView { screen: self.screen@, ..pre }),
                        forall|p: int|
                            0 <= p < 2048 ==> self.screen@[p] == (pre.screen[p]
                                != sprite_lights_upto(
                                pre.memory,
                                index as int,
                                base_x as int,
                                base_y as int,
                                i as int,
                                j as int,
                                p / 64,
                                p % 64,
                            )),
                        hit == collides_upto(
                            pre.screen,
                            pre.memory,
                            index as int,
                            base_x as int,
                            base_y as int,
                            i as int,
                            j as int,
                        ),
                    decreases 8 - j,
                {
                    let sprite_x = base_x + j;
                    let ghost before = self.screen@;
                    let ghost hit_before = hit;
                    if sprite_x < SCREEN_WIDTH {
                        let lit = (sprite >> (7 - (j as u8))) & 1 == 1;
                        let pixel_index = sprite_y * 64 + sprite_x;
                        assert(lit == row_bit(sprite, j as int));
                        if lit && self.screen[pixel_index] {
                            hit = true;
                        }
                        let cell = self.screen[pixel_index];
                        self.screen[pixel_index] = lit != cell;
                        proof {
                            assert(pixel_index as int / 64 == sprite_y && pixel_index as int % 64
                                == sprite_x);
                            if lit && before[pixel_index as int] {
                                assert(pre.screen[pixel_index as int]);
                                assert(sprite_lights_upto(
                                    pre.memory,
                                    index as int,
                                    base_x as int,
                                    base_y as int,
                                    i as int,
                                    j + 1,
                                    pixel_index as int / 64,
                                    pixel_index as int % 64,
                                ));
                            }
                        }
                    }
                    proof {
                        let next = collides_upto(
                            pre.screen,
                            pre.memory,
                            index as int,
                            base_x as int,
                            base_y as int,
                            i as int,
                            j + 1,
                        );
                        if hit_before {
                            let p = choose|p: int|
                                0 <= p < 2048 && #[trigger] pre.screen[p] && sprite_lights_upto(
                                    pre.memory,
                                    index as int,
                                    base_x as int,
                                    base_y as int,
                                    i as int,
                                    j as int,
                                    p / 64,
                                    p % 64,
                                );
                            assert(pre.screen[p] && sprite_lights_upto(
                                pre.memory,
                                index as int,
                                base_x as int,
                                base_y as int,
                                i as int,
                                j + 1,
                                p / 64,
                                p % 64,
                            ));
                        }
                        if next && !hit {
                            let p = choose|p: int|
                                0 <= p < 2048 && #[trigger] pre.screen[p] && sprite_lights_upto(
                                    pre.memory,
                                    index as int,
                                    base_x as int,
                                    base_y as int,
                                    i as int,
                                    j + 1,
                                    p / 64,
                                    p % 64,
                                );
                            assert(p / 64 == sprite_y && p % 64 == sprite_x);
                            assert(p == sprite_y * 64 + sprite_x);
                            assert(false);
                        }
                    }
                    j += 1;
                }
            }
            proof {
                let (ix, bx, by) = (index as int, base_x as int, base_y as int);
                if hit {
                    let p = choose|p: int|
                        0 <= p < 2048 && #[trigger] pre.screen[p] && sprite_lights_upto(
                            pre.memory,
                            ix,
                            bx,
                            by,
                            i as int,
                            j as int,
                            p / 64,
                            p % 64,
                        );
                    assert(pre.screen[p] && sprite_lights_upto(
                        pre.memory,
                        ix,
                        bx,
                        by,
                        i + 1,
                        0,
                        p / 64,
                        p % 64,
                    ));
                }
                if collides_upto(pre.screen, pre.memory, ix, bx, by, i + 1, 0) {
                    let p = choose|p: int|
                        0 <= p < 2048 && #[trigger] pre.screen[p] && sprite_lights_upto(
                            pre.memory,
                            ix,
                            bx,
                            by,
                            i + 1,
                            0,
                            p / 64,
                            p % 64,
                        );
                    assert(pre.screen[p] && sprite_lights_upto(
                        pre.memory,
                        ix,
                        bx,
                        by,
                        i as int,
                        j as int,
                        p / 64,
                        p % 64,
                    ));
                }
            }
            i += 1;
        }
        proof {
            let (ix, bx, by) = (index as int, base_x as int, base_y as int);
            assert(self.screen@ =~= blit(pre.screen, pre.memory, ix, bx, by, n as int));
            if hit {
                let p = choose|p: int|
                    0 <= p < 2048 && #[trigger] pre.screen[p] && sprite_lights_upto(
                        pre.memory,
                        ix,
                        bx,
                        by,
                        n as int,
                        0,
                        p / 64,
                        p % 64,
                    );
                assert(pre.screen[p] && sprite_lights(
                    pre.memory,
                    ix,
                    bx,
                    by,
                    n as int,
                    p / 64,
                    p % 64,
                ));
            }
            if collides(pre.screen, pre.memory, ix, bx, by, n as int) {
                let p = choose|p: int|
                    0 <= p < 2048 && #[trigger] pre.screen[p] && sprite_lights(
                        pre.memory,
                        ix,
                        bx,
                        by,
                        n as int,
                        p / 64,
                        p % 64,
                    );
                assert(pre.screen[p] && sprite_lights_upto(
                    pre.memory,
                    ix,
                    bx,
                    by,
                    n as int,
                    0,
                    p / 64,
                    p % 64,
                ));
            }
        }
        self.registers[0xF] = if hit { 1 } else { 0 };
        self.draw_flag = true;
    }

    /// The lowest index whose key is held, if any.
    pub fn lowest_pressed(&self) -> (r: Option<u8>)
        ensures
            match first_pressed(self@.keys, 0) {
                Some(k) => r == Some(k as u8) && 0 <= k < 16,
                None => r is None,
            },
    {
        let mut i: usize = 0;
        while i < 16
            invariant
                i <= 16,
                self.keys@.len() == 16,
                first_pressed(self.keys@, 0) == first_pressed(self.keys@, i as int),
            decreases 16 - i,
        {
            if self.keys[i] {
                return Some(i as u8);
            }
            i += 1;
        }
        None
    }

    /// The key group: skip on a held key, or on one that is not held.
    pub fn cond_key(&mut self, v: OpCode) -> (r: Result<(), FaultKind>)
        requires
            old(self).pc <= usize::MAX - 2,
        ensures
            match old(self)@.op_cond_key(v) {
                Ok(m) => r is Ok && final(self)@ == m,
                Err(k) => r == Err::<(), FaultKind>(k) && final(self)@ == old(self)@,
            },
    {
        let b = op_byte(v);
        if b == 0x9E {
            self.cond_key_pressed(v)
        } else if b == 0xA1 {
            self.cond_key_not_pressed(v)
        } else {
            Err(FaultKind::InvalidOpcode)
        }
    }

    /// Skips the next instruction where the key that register `x` names is held.
    pub fn cond_key_pressed(&mut self, v: OpCode) -> (r: Result<(), FaultKind>)
        requires
            old(self).pc <= usize::MAX - 2,
        ensures
            match old(self)@.op_key_skip(v, true) {
                Ok(m) => r is Ok && final(self)@ == m,
                Err(k) => r == Err::<(), FaultKind>(k) && final(self)@ == old(self)@,
            },
    {
        let x = op_x(v);
        let key = self.registers[x] as usize;
        if key >= 16 {
            return Err(FaultKind::KeyOutOfRange);
        }
        if self.keys[key] {
            self.pc += 2;
        }
        Ok(())
    }

    /// Skips the next instruction where the key that register `x` names is not
    /// held.
    pub fn cond_key_not_pressed(&mut self, v: OpCode) -> (r: Result<(), FaultKind>)
        requires
            old(self).pc <= usize::MAX - 2,
        ensures
            match old(self)@.op_key_skip(v, false) {
                Ok(m) => r is Ok && final(self)@ == m,
                Err(k) => r == Err::<(), FaultKind>(k) && final(self)@ == old(self)@,
            },
    {
        let x = op_x(v);
        let key = self.registers[x] as usize;
        if key >= 16 {
            return Err(FaultKind::KeyOutOfRange);
        }
        if !self.keys[key] {
            self.pc += 2;
        }
        Ok(())
    }

    /// Register `x` takes the delay timer.
    pub fn get_delay(&mut self, v: OpCode)
        ensures
            final(self)@ == old(self)@.op_get_delay(v),
    {
        let x = op_x(v);
        self.registers[x] = self.delay_timer;
    }

    /// Key wait: takes the lowest held key, or suspends the machine.
    pub fn await_key(&mut self, v: OpCode)
        ensures
            final(self)@ == old(self)@.op_await_key(v),
    {
        let x = op_x(v);
        match self.lowest_pressed() {
            Some(k) => {
                self.registers[x] = k;
            },
            None => {
                self.state = State::WaitingForKey(x);
            },
        }
    }

    /// The delay timer takes register `x`.
    pub fn set_delay(&mut self, v: OpCode)
        ensures
            final(self)@ == old(self)@.op_set_delay(v),
    {
        let x = op_x(v);
        self.delay_timer = self.registers[x];
    }

    /// The sound timer takes register `x`; a value other than zero opens the
    /// audio gate.
    pub fn set_sound(&mut self, v: OpCode)
        ensures
            final(self)@ == old(self)@.op_set_sound(v),
    {
        let x = op_x(v);
        self.sound_timer = self.registers[x];
        if self.sound_timer != 0 {
            self.audio_on = true;
        }
    }

    /// The index register grows by the low twelve bits of the word; the flag
    /// register tells whether it is past 0xFFF.
    pub fn add_index(&mut self, v: OpCode)
        ensures
            final(self)@ == old(self)@.op_add_index(v),
    {
        let sum: u32 = self.index_register as u32 + op_addr(v) as u32;
        self.index_register = (sum % 0x10000) as u16;
        self.registers[0xF] = if self.index_register > 0xFFF { 1 } else { 0 };
    }

    /// The index register takes the address of the glyph for register `x`.
    pub fn set_index_char(&mut self, v: OpCode)
        ensures
            final(self)@ == old(self)@.op_set_index_char(v),
    {
        let x = op_x(v);
        self.index_register = self.registers[x] as u16 * 5;
    }

    /// Stores the three decimal digits of register `x` at the index register.
    pub fn set_index_bcd(&mut self, v: OpCode) -> (r: Result<(), FaultKind>)
        ensures
            match old(self)@.op_set_index_bcd(v) {
                Ok(m) => r is Ok && final(self)@ == m,
                Err(k) => r == Err::<(), FaultKind>(k) && final(self)@ == old(self)@,
            },
    {
        let x = op_x(v);
        let bcd = self.registers[x];
        let i = self.index_register as usize;
        if i + 2 >= MEMORY_SIZE {
            return Err(FaultKind::MemoryOutOfRange);
        }
        self.memory[i] = bcd / 100;
        self.memory[i + 1] = (bcd / 10) % 10;
        self.memory[i + 2] = bcd % 10;
        Ok(())
    }

    /// Stores registers 0 to `x` inclusive at the index register and moves the
    /// index register past them.
    pub fn reg_dump(&mut self, v: OpCode) -> (r: Result<(), FaultKind>)
        ensures
            match old(self)@.op_reg_dump(v) {
                Ok(m) => r is Ok && final(self)@ == m,
                Err(k) => r == Err::<(), FaultKind>(k) && final(self)@ == old(self)@,
            },
    {
        let x = op_x(v);
        let base = self.index_register as usize;
        if base + x >= MEMORY_SIZE {
            return Err(FaultKind::MemoryOutOfRange);
        }
        let ghost pre = self@;
        let mut i: usize = 0;
        while i <= x
            invariant
                i <= x + 1,
                x < 16,
                base + x < 4096,
                pre.memory.len() == 4096,
                pre.registers.len() == 16,
                self@ == (MachineView { memory: self.memory@, ..pre }),
                forall|a: int|
                    0 <= a < 4096 ==> self.memory@[a] == if base <= a < base + i {
                        pre.registers[a - base]
                    } else {
                        pre.memory[a]
                    },
            decreases x + 1 - i,
        {
            self.memory[base + i] = self.registers[i];
            i += 1;
        }
        self.index_register = (base + x + 1) as u16;
        assert(self.memory@ =~= old(self)@.op_reg_dump(v).unwrap().memory);
        Ok(())
    }

    /// Loads registers 0 to `x` inclusive from the index register on and moves
    /// the index register past them.
    pub fn reg_load(&mut self, v: OpCode) -> (r: Result<(), FaultKind>)
        ensures
            match old(self)@.op_reg_load(v) {
                Ok(m) => r is Ok && final(self)@ == m,
                Err(k) => r == Err::<(), FaultKind>(k) && final(self)@ == old(self)@,
            },
    {
        let x = op_x(v);
        let base = self.index_register as usize;
        if base + x >= MEMORY_SIZE {
            return Err(FaultKind::MemoryOutOfRange);
        }
        let ghost pre = self@;
        let mut i: usize = 0;
        while i <= x
            invariant
                i <= x + 1,
                x < 16,
                base + x < 4096,
                pre.memory.len() == 4096,
                pre.registers.len() == 16,
                self@ == (MachineView { registers: self.registers@, ..pre }),
                forall|k: int|
                    0 <= k < 16 ==> self.registers@[k] == if k < i {
                        pre.memory[base + k]
                    } else {
                        pre.registers[k]
                    },
            decreases x + 1 - i,
        {
            self.registers[i] = self.memory[base + i];
            i += 1;
        }
        self.index_register = (base + x + 1) as u16;
        assert(self.registers@ =~= old(self)@.op_reg_load(v).unwrap().registers);
        Ok(())
    }

    /// The utility group, selected by the low byte.
    pub fn util(&mut self, v: OpCode) -> (r: Result<(), FaultKind>)
        ensures
            match old(self)@.op_util(v) {
                Ok(m) => r is Ok && final(self)@ == m,
                Err(k) => r == Err::<(), FaultKind>(k) && final(self)@ == old(self)@,
            },
    {
        let b = op_byte(v);
        if b == 0x07 {
            self.get_delay(v);
        } else if b == 0x0A {
            self.await_key(v);
        } else if b == 0x15 {
            self.set_delay(v);
        } else if b == 0x18 {
            self.set_sound(v);
        } else if b == 0x1E {
            self.add_index(v);
        } else if b == 0x29 {
            self.set_index_char(v);
        } else if b == 0x33 {
            return self.set_index_bcd(v);
        } else if b == 0x55 {
            return self.reg_dump(v);
        } else if b == 0x65 {
            return self.reg_load(v);
        } else {
            return Err(FaultKind::InvalidOpcode);
        }
        Ok(())
    }

    /// The group of clear and return, selected by the low byte.
    pub fn zero(&mut self, v: OpCode) -> (r: Result<(), FaultKind>)
        ensures
            match old(self)@.op_zero(v) {
                Ok(m) => r is Ok && final(self)@ == m,
                Err(k) => r == Err::<(), FaultKind>(k) && final(self)@ == old(self)@,
            },
    {
        let b = op_byte(v);
        if b == 0xE0 {
            self.draw_flag = true;
            self.screen = [false;2048];
            assert(self.screen@ =~= old(self)@.op_clear().screen);
            Ok(())
        } else if b == 0xEE {
            match self.stack.pop() {
                Some(target) => {
                    self.pc = target as usize;
                    Ok(())
                },
                None => Err(FaultKind::StackUnderflow),
            }
        } else {
            Err(FaultKind::InvalidOpcode)
        }
    }

    /// Executes the instruction word `v`, which was fetched already.
    /// `random` is the byte that the random instruction takes.
    #[verifier::rlimit(40)]
    pub fn execute(&mut self, v: OpCode, random: u8) -> (r: Result<(), FaultKind>)
        requires
            old(self).pc < 0x10000,
        ensures
            match old(self)@.execute(v, random) {
                Ok(m) => r is Ok && final(self)@ == m,
                Err(k) => r == Err::<(), FaultKind>(k) && final(self)@ == old(self)@,
            },
    {
        proof {
            reveal(MachineView::execute);
        }
        let g = op_group(v);
        if g == 0x0 {
            return self.zero(v);
        } else if g == 0x1 {
            self.goto(v);
        } else if g == 0x2 {
            return self.call(v);
        } else if g == 0x3 {
            self.cond_eq_const(v);
        } else if g == 0x4 {
            self.cond_neq_const(v);
        } else if g == 0x5 {
            self.cond_eq_reg(v);
        } else if g == 0x6 {
            self.set_const(v);
        } else if g == 0x7 {
            self.add_const(v);
        } else if g == 0x8 {
            return self.arith(v);
        } else if g == 0x9 {
            self.cond_neq_reg(v);
        } else if g == 0xA {
            self.set_index(v);
        } else if g == 0xB {
            self.jump(v);
        } else if g == 0xC {
            self.rand(v, random);
        } else if g == 0xD {
            self.draw(v);
        } else if g == 0xE {
            return self.cond_key(v);
        } else {
            return self.util(v);
        }
        Ok(())
    }

    /// One cycle's share of timer work.
    pub fn tick_timers(&mut self)
        ensures
            final(self)@ == old(self)@.tick(),
    {
        if self.frame_timer == 0 {
            if self.delay_timer > 0 {
                self.delay_timer -= 1;
            }
            if self.sound_timer == 1 {
                self.audio_on = false;
            }
            if self.sound_timer > 0 {
                self.sound_timer -= 1;
            }
            self.frame_timer = TIMER_DIVIDER;
        }
        self.frame_timer -= 1;
    }

    /// A waiting machine looks at the keys: the lowest held key goes to
    /// register `x` and the machine runs again, or it goes on waiting.
    pub fn poll_key(&mut self, x: usize)
        requires
            x < 16,
        ensures
            final(self)@ == old(self)@.poll_key(x),
    {
        match self.lowest_pressed() {
            Some(k) => {
                self.registers[x] = k;
                self.state = State::Running;
            },
            None => {},
        }
    }

    /// One cycle, for the byte `random` that a random instruction would
    /// take: at most one instruction, then the timers. Tells whether the
    /// machine is halted. A fault leaves the machine as it was.
    #[verifier::rlimit(40)]
    pub fn step(&mut self, random: u8) -> (r: Result<bool, Fault>)
        requires
            old(self).wf(),
        ensures
            final(self).wf(),
            cycle_outcome(old(self)@, random, final(self)@, r),
    {
        match self.state {
            State::Halted => {},
            State::WaitingForKey(x) => {
                self.poll_key(x);
            },
            State::Running => {
                if self.pc + 1 >= MEMORY_SIZE {
                    return Err(self.fault(FaultKind::FetchOutOfRange, 0));
                }
                let opcode = self.fetch_opcode();
                match self.execute(opcode, random) {
                    Ok(()) => {
                        proof {
                            lemma_execute_keeps_shape(old(self)@.fetched(), opcode, random);
                        }
                    },
                    Err(kind) => {
                        proof {
                            lemma_execute_faults_are_its_own(
                                old(self)@.fetched(),
                                opcode,
                                random,
                            );
                        }
                        let fault = self.fault(kind, opcode);
                        self.pc -= 2;
                        return Err(fault);
                    },
                }
                self.tick_timers();
                if self.pc >= MEMORY_SIZE {
                    self.state = State::Halted;
                }
            },
        }
        Ok(self.is_halted())
    }

    /// Whether the machine has halted.
    pub fn is_halted(&self) -> (r: bool)
        ensures
            r == (self@.state == State::Halted),
    {
        match self.state {
            State::Halted => true,
            _ => false,
        }
    }

    /// Whether the next cycle executes the random instruction.
    pub fn wants_random(&self) -> (r: bool)
        ensures
            r == self@.wants_random(),
    {
        match self.state {
            State::Running => self.pc < MEMORY_SIZE - 1 && self.memory[self.pc] / 16 == 0xC,
            _ => false,
        }
    }

    /// One cycle: at most one instruction, then the timers. Tells whether
    /// the machine is halted. A random instruction draws its byte here.
    pub fn cycle(&mut self) -> (r: Result<bool, Fault>)
        requires
            old(self).wf(),
        ensures
            final(self).wf(),
            exists|random: u8| cycle_outcome(old(self)@, random, final(self)@, r),
            !old(self)@.wants_random() ==> cycle_outcome(old(self)@, 0, final(self)@, r),
    {
        let random = if self.wants_random() {
            random_byte()
        } else {
            0
        };
        self.step(random)
    }
}

/// Whether `post` and `r` are what one cycle makes of `pre` with the byte
/// `random`: the next state and whether it is halted, or `pre` unchanged and
/// the fault with its snapshot.
pub open spec fn cycle_outcome(
    pre: MachineView,
    random: u8,
    post: MachineView,
    r: Result<bool, Fault>,
) -> bool {
    match pre.cycle(random) {
        Ok(next) => post == next && r == Ok::<bool, Fault>(next.state == State::Halted),
        Err(kind) => {
            &&& post == pre
            &&& r is Err
            &&& r->Err_0.describes(pre.at_fault(kind), kind, pre.faulty_opcode(kind))
        },
    }
}

} // verus!
