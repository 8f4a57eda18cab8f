//! Laws of the machine, proved of the model that the contracts speak of.

use vstd::prelude::*;
use crate::decode::{addr_of, byte_of, group_of, nibble_of, x_of, y_of};
use crate::display::{blit, collides, sprite_lights};
use crate::model::{
    count_down, first_pressed, lemma_execute_keeps_shape, FaultKind, MachineView, State,
    MEMORY_SIZE, PROGRAM_START, TIMER_DIVIDER,
};

verus! {

/// Whether the word `v` sets the program counter from something other than
/// the counter itself: a jump, a call, a return or a jump with offset.
pub open spec fn transfers_control(v: u16) -> bool {
    ||| group_of(v) == 0x1
    ||| group_of(v) == 0x2
    ||| group_of(v) == 0xB
    ||| (group_of(v) == 0x0 && byte_of(v) == 0xEE)
}

/// A cycle keeps the machine well formed, so the program counter of a
/// machine that is not halted lies within memory; and a running machine is
/// halted by a cycle exactly when the counter has left memory after the
/// instruction.
pub proof fn law_halts_exactly_outside_memory(m: MachineView, random: u8)
    requires
        m.wf(),
        m.state == State::Running,
        m.cycle(random) is Ok,
    ensures
        m.cycle(random).unwrap().wf(),
        m.cycle(random).unwrap().state == State::Halted <==> m.cycle(random).unwrap().pc
            >= MEMORY_SIZE,
        m.cycle(random).unwrap().state != State::Halted ==> m.cycle(random).unwrap().pc
            < MEMORY_SIZE,
{
    lemma_execute_keeps_shape(m.fetched(), m.opcode(), random);
}

/// The machine after one cycle for each byte of `randoms` in turn, or the
/// first fault met.
pub open spec fn run(m: MachineView, randoms: Seq<u8>) -> Result<MachineView, FaultKind>
    decreases randoms.len(),
{
    if randoms.len() == 0 {
        Ok(m)
    } else {
        match run(m, randoms.drop_last()) {
            Ok(before) => before.cycle(randoms.last()),
            Err(kind) => Err(kind),
        }
    }
}

/// A cycle keeps a machine well formed, whatever its state.
pub proof fn law_cycle_keeps_well_formed(m: MachineView, random: u8)
    requires
        m.wf(),
        m.cycle(random) is Ok,
    ensures
        m.cycle(random).unwrap().wf(),
{
    match m.state {
        State::Running => {
            law_halts_exactly_outside_memory(m, random);
        },
        State::WaitingForKey(x) => {
            law_first_pressed_is_lowest(m.keys, 0);
        },
        State::Halted => {},
    }
}

/// Whatever the program, and however many cycles it has run without a
/// fault, the machine is well formed: while it is not halted its program
/// counter lies within memory.
pub proof fn law_pc_in_memory_until_halted(m: MachineView, randoms: Seq<u8>)
    requires
        m.wf(),
        run(m, randoms) is Ok,
    ensures
        run(m, randoms).unwrap().wf(),
        run(m, randoms).unwrap().state != State::Halted ==> run(m, randoms).unwrap().pc
            < MEMORY_SIZE,
    decreases randoms.len(),
{
    if randoms.len() > 0 {
        law_pc_in_memory_until_halted(m, randoms.drop_last());
        law_cycle_keeps_well_formed(run(m, randoms.drop_last()).unwrap(), randoms.last());
    }
}

/// Whether the word `v` can only send the program counter to an even
/// address in the program area: it is no jump with offset, and where it is
/// a jump or a call its address is even and not below the program start.
pub open spec fn aims_at_words(v: u16) -> bool {
    &&& group_of(v) != 0xB
    &&& (group_of(v) == 0x1 || group_of(v) == 0x2 ==> addr_of(v) % 2 == 0 && addr_of(v)
        >= PROGRAM_START)
}

/// Whether the program counter and every return address on the stack are
/// even and in the program area.
pub open spec fn on_words(m: MachineView) -> bool {
    &&& m.pc % 2 == 0
    &&& m.pc >= PROGRAM_START
    &&& forall|i: int|
        0 <= i < m.stack.len() ==> (#[trigger] m.stack[i]) % 2 == 0 && m.stack[i] >= PROGRAM_START
}

/// One cycle of a machine on words, at a word that aims at words, leaves
/// the machine on words.
#[verifier::rlimit(40)]
pub proof fn lemma_cycle_stays_on_words(m: MachineView, random: u8)
    requires
        m.wf(),
        on_words(m),
        m.state == State::Running ==> aims_at_words(m.opcode()),
        m.cycle(random) is Ok,
    ensures
        on_words(m.cycle(random).unwrap()),
{
    match m.state {
        State::Running => {
            let v = m.opcode();
            let f = m.fetched();
            let after = f.execute(v, random).unwrap();
            assert(m.cycle(random).unwrap().pc == after.pc);
            assert(m.cycle(random).unwrap().stack == after.stack);
            if group_of(v) == 0x2 {
                reveal(MachineView::execute);
                assert(after.stack == f.stack.push(f.pc as u16));
                assert forall|i: int| 0 <= i < after.stack.len() implies (#[trigger] after.stack[i])
                    % 2 == 0 && after.stack[i] >= PROGRAM_START by {
                    if i < f.stack.len() {
                        assert(after.stack[i] == m.stack[i]);
                    }
                }
            } else if group_of(v) == 0x0 && byte_of(v) == 0xEE {
                reveal(MachineView::execute);
                assert(after.stack == f.stack.drop_last());
                assert(after.pc == m.stack[m.stack.len() - 1]);
                assert forall|i: int| 0 <= i < after.stack.len() implies (#[trigger] after.stack[i])
                    % 2 == 0 && after.stack[i] >= PROGRAM_START by {
                    assert(after.stack[i] == m.stack[i]);
                }
            } else if group_of(v) == 0x1 {
                reveal(MachineView::execute);
            } else {
                lemma_execute_can_only_skip(f, v, random);
                lemma_execute_keeps_stack(f, v, random);
            }
        },
        State::WaitingForKey(x) => {
            law_first_pressed_is_lowest(m.keys, 0);
        },
        State::Halted => {},
    }
}

/// Only a call and a return change the stack.
#[verifier::rlimit(40)]
pub proof fn lemma_execute_keeps_stack(m: MachineView, v: u16, random: u8)
    requires
        group_of(v) != 0x2,
        !(group_of(v) == 0x0 && byte_of(v) == 0xEE),
        m.execute(v, random) is Ok,
    ensures
        m.execute(v, random).unwrap().stack == m.stack,
{
    reveal(MachineView::execute);
}

/// A program whose jumps and calls aim at even addresses in the program
/// area, and which neither jumps with offset nor stores to memory, keeps
/// its program counter even and in the program area for as long as it
/// runs, from any start on words.
pub proof fn law_pc_even_in_program_area(m: MachineView, randoms: Seq<u8>)
    requires
        m.wf(),
        on_words(m),
        run(m, randoms) is Ok,
        forall|a: int|
            0 <= a < MEMORY_SIZE - 1 && a % 2 == 0 ==> aims_at_words(
                #[trigger] word_at(m.memory, a),
            ),
        forall|a: int|
            0 <= a < MEMORY_SIZE - 1 && a % 2 == 0 ==> !writes_memory(
                #[trigger] word_at(m.memory, a),
            ),
    ensures
        run(m, randoms).unwrap().pc % 2 == 0,
        run(m, randoms).unwrap().pc >= PROGRAM_START,
        run(m, randoms).unwrap().state == State::Running ==> PROGRAM_START <= run(
            m,
            randoms,
        ).unwrap().pc < MEMORY_SIZE,
        on_words(run(m, randoms).unwrap()),
        run(m, randoms).unwrap().memory == m.memory,
        run(m, randoms).unwrap().wf(),
    decreases randoms.len(),
{
    if randoms.len() > 0 {
        let before = run(m, randoms.drop_last()).unwrap();
        law_pc_even_in_program_area(m, randoms.drop_last());
        law_cycle_keeps_well_formed(before, randoms.last());
        if before.state == State::Running {
            assert(before.opcode() == word_at(before.memory, before.pc as int));
            lemma_execute_keeps_memory(before.fetched(), before.opcode(), randoms.last());
        } else {
            law_first_pressed_is_lowest(before.keys, 0);
        }
        lemma_cycle_stays_on_words(before, randoms.last());
    }
}

/// The word stored at address `a`, high byte first.
pub open spec fn word_at(memory: Seq<u8>, a: int) -> u16 {
    (memory[a] as int * 256 + memory[a + 1] as int) as u16
}

/// Whether the word `v` is one of the utility instructions that store to
/// memory: the decimal digits, or the register dump.
pub open spec fn writes_memory(v: u16) -> bool {
    group_of(v) == 0xF && (byte_of(v) == 0x33 || byte_of(v) == 0x55)
}

/// A halted machine stays as it is.
pub proof fn law_halted_is_terminal(m: MachineView, random: u8)
    requires
        m.state == State::Halted,
    ensures
        m.cycle(random) == Ok::<MachineView, FaultKind>(m),
{
}

/// Only the decimal digits and the register dump change memory.
#[verifier::rlimit(40)]
pub proof fn lemma_execute_keeps_memory(m: MachineView, v: u16, random: u8)
    requires
        !writes_memory(v),
        m.execute(v, random) is Ok,
    ensures
        m.execute(v, random).unwrap().memory == m.memory,
{
    reveal(MachineView::execute);
}

/// An instruction that does not transfer control moves the program counter
/// past itself, and past the next word where it skips: from an even counter
/// in the program area the counter stays even and in the program area.
pub proof fn law_pc_advances_by_words(m: MachineView, random: u8)
    requires
        m.wf(),
        m.state == State::Running,
        m.cycle(random) is Ok,
        !transfers_control(m.opcode()),
    ensures
        m.cycle(random).unwrap().pc == m.pc + 2 || m.cycle(random).unwrap().pc == m.pc + 4,
        m.pc % 2 == 0 ==> m.cycle(random).unwrap().pc % 2 == 0,
        m.pc >= PROGRAM_START ==> m.cycle(random).unwrap().pc >= PROGRAM_START,
{
    let after = m.fetched().execute(m.opcode(), random).unwrap();
    lemma_execute_can_only_skip(m.fetched(), m.opcode(), random);
    assert(m.cycle(random).unwrap().pc == after.pc);
}

/// An instruction that does not transfer control leaves the program
/// counter alone or moves it past one word.
#[verifier::rlimit(40)]
pub proof fn lemma_execute_can_only_skip(m: MachineView, v: u16, random: u8)
    requires
        m.pc <= MEMORY_SIZE + 1,
        !transfers_control(v),
        m.execute(v, random) is Ok,
    ensures
        m.execute(v, random).unwrap().pc == m.pc || m.execute(v, random).unwrap().pc == m.pc + 2,
{
    reveal(MachineView::execute);
    let g = group_of(v);
    if g == 0x0 {
        assert(m.execute(v, random) == m.op_zero(v));
    } else if g == 0x8 {
        assert(m.execute(v, random) == m.op_arith(v));
    } else if g == 0xE {
        assert(m.execute(v, random) == m.op_cond_key(v));
    } else if g == 0xF {
        assert(m.execute(v, random) == m.op_util(v));
    }
}

/// A jump and a call set the program counter to the address in the word, a
/// jump with offset to that address plus register 0, a return to the
/// address on top of the stack.
#[verifier::rlimit(40)]
pub proof fn law_transfer_targets(m: MachineView, random: u8)
    requires
        m.wf(),
        m.state == State::Running,
        m.cycle(random) is Ok,
        transfers_control(m.opcode()),
    ensures
        group_of(m.opcode()) == 0x1 || group_of(m.opcode()) == 0x2 ==> m.cycle(
            random,
        ).unwrap().pc == addr_of(m.opcode()),
        group_of(m.opcode()) == 0xB ==> m.cycle(random).unwrap().pc == addr_of(m.opcode())
            + m.registers[0],
        group_of(m.opcode()) == 0x0 ==> m.stack.len() > 0 && m.cycle(random).unwrap().pc
            == m.stack.last(),
{
    reveal(MachineView::execute);
}

/// Only the random instruction looks at the random byte.
#[verifier::rlimit(40)]
pub proof fn law_random_only_for_random_instruction(m: MachineView, r1: u8, r2: u8)
    requires
        !m.wants_random(),
    ensures
        m.cycle(r1) == m.cycle(r2),
{
    reveal(MachineView::execute);
}

/// Add-immediate, add, subtract and reverse-subtract compute modulo 256 on
/// a register other than the flag register, and the flag register holds 1
/// exactly where the sum passed 255 or the difference fell below 0.
pub proof fn law_arithmetic_wraps_and_flags(m: MachineView, v: u16)
    requires
        m.wf(),
        x_of(v) != 0xF,
    ensures
        m.op_add_const(v).registers[x_of(v)] == (m.registers[x_of(v)] + byte_of(v)) % 256,
        m.op_add_const(v).registers[0xF] == m.registers[0xF],
        m.op_add_reg(v).registers[x_of(v)] == (m.registers[x_of(v)] + m.registers[y_of(v)]) % 256,
        m.op_add_reg(v).registers[0xF] == 1 <==> m.registers[x_of(v)] + m.registers[y_of(v)] > 255,
        m.op_add_reg(v).registers[0xF] == 0 <==> m.registers[x_of(v)] + m.registers[y_of(v)]
            <= 255,
        m.op_sub_reg(v).registers[x_of(v)] == (m.registers[x_of(v)] - m.registers[y_of(v)]) % 256,
        m.op_sub_reg(v).registers[0xF] == 1 <==> m.registers[x_of(v)] < m.registers[y_of(v)],
        m.op_sub_reg(v).registers[0xF] == 0 <==> m.registers[x_of(v)] >= m.registers[y_of(v)],
        m.op_rev_sub(v).registers[x_of(v)] == (m.registers[y_of(v)] - m.registers[x_of(v)]) % 256,
        m.op_rev_sub(v).registers[0xF] == 1 <==> m.registers[y_of(v)] < m.registers[x_of(v)],
        m.op_rev_sub(v).registers[0xF] == 0 <==> m.registers[y_of(v)] >= m.registers[x_of(v)],
{
}

/// With the flag register as the operand, the flag is what it holds after
/// add, subtract and reverse-subtract.
pub proof fn law_flag_wins_on_flag_register(m: MachineView, v: u16)
    requires
        m.wf(),
        x_of(v) == 0xF,
    ensures
        m.op_add_reg(v).registers[0xF] == 1 <==> m.registers[0xF] + m.registers[y_of(v)] > 255,
        m.op_add_reg(v).registers[0xF] == 0 <==> m.registers[0xF] + m.registers[y_of(v)] <= 255,
        m.op_sub_reg(v).registers[0xF] == 1 <==> m.registers[0xF] < m.registers[y_of(v)],
        m.op_sub_reg(v).registers[0xF] == 0 <==> m.registers[0xF] >= m.registers[y_of(v)],
        m.op_rev_sub(v).registers[0xF] == 1 <==> m.registers[y_of(v)] < m.registers[0xF],
        m.op_rev_sub(v).registers[0xF] == 0 <==> m.registers[y_of(v)] >= m.registers[0xF],
{
}

/// The shifts on a register other than the flag register: shift-right
/// leaves the lowest bit in the flag register; shift-left leaves the
/// highest bit there in place, as 0 or 0x80, not as 0 or 1.
pub proof fn law_shifts_and_flags(m: MachineView, v: u16)
    requires
        m.wf(),
        x_of(v) != 0xF,
    ensures
        m.op_shift_right(v).registers[x_of(v)] == m.registers[x_of(v)] >> 1,
        m.op_shift_right(v).registers[0xF] == m.registers[x_of(v)] & 0x1,
        m.op_shift_left(v).registers[x_of(v)] == m.registers[x_of(v)] << 1,
        m.op_shift_left(v).registers[0xF] == m.registers[x_of(v)] & 0x80,
{
    let a: u8 = m.registers[x_of(v)];
    assert(a >> 1 == a / 2) by (bit_vector);
    assert(a & 0x1 == a % 2) by (bit_vector);
    assert(a << 1 == ((a as u16 * 2) % 256) as u8) by (bit_vector);
    assert(a & 0x80 == if a >= 128 { 128u8 } else { 0u8 }) by (bit_vector);
}

/// Draw composes by XOR: each cell of the display is flipped exactly where
/// the sprite lights it.
pub proof fn law_draw_is_xor(
    screen: Seq<bool>,
    memory: Seq<u8>,
    index: int,
    bx: int,
    by: int,
    n: int,
    p: int,
)
    requires
        0 <= p < 2048,
    ensures
        blit(screen, memory, index, bx, by, n)[p] == (screen[p] ^ sprite_lights(
            memory,
            index,
            bx,
            by,
            n,
            p / 64,
            p % 64,
        )),
{
}

/// Drawing the same sprite at the same place twice gives the display back,
/// and the second draw collides exactly where the sprite lights a cell
/// that was dark before the first.
pub proof fn law_draw_twice_restores(
    screen: Seq<bool>,
    memory: Seq<u8>,
    index: int,
    bx: int,
    by: int,
    n: int,
)
    requires
        screen.len() == 2048,
    ensures
        blit(blit(screen, memory, index, bx, by, n), memory, index, bx, by, n) == screen,
        collides(blit(screen, memory, index, bx, by, n), memory, index, bx, by, n) <==> exists|
            p: int,
        |
            0 <= p < 2048 && !#[trigger] screen[p] && sprite_lights(
                memory,
                index,
                bx,
                by,
                n,
                p / 64,
                p % 64,
            ),
{
    let once = blit(screen, memory, index, bx, by, n);
    assert(blit(once, memory, index, bx, by, n) =~= screen);
    if collides(once, memory, index, bx, by, n) {
        let p = choose|p: int|
            0 <= p < 2048 && #[trigger] once[p] && sprite_lights(
                memory,
                index,
                bx,
                by,
                n,
                p / 64,
                p % 64,
            );
        assert(!screen[p]);
    }
    if exists|p: int|
        0 <= p < 2048 && !#[trigger] screen[p] && sprite_lights(
            memory,
            index,
            bx,
            by,
            n,
            p / 64,
            p % 64,
        ) {
        let p = choose|p: int|
            0 <= p < 2048 && !#[trigger] screen[p] && sprite_lights(
                memory,
                index,
                bx,
                by,
                n,
                p / 64,
                p % 64,
            );
        assert(once[p]);
    }
}

/// The draw instruction twice in a row, with origin registers other than
/// the flag register, gives the display back and leaves the display marked
/// for repaint; the flag register then holds 1 exactly where the sprite
/// lights a cell that was dark before the first draw.
pub proof fn law_draw_instruction_twice_restores(m: MachineView, v: u16)
    requires
        m.wf(),
        x_of(v) != 0xF,
        y_of(v) != 0xF,
    ensures
        m.op_draw(v).op_draw(v).screen == m.screen,
        m.op_draw(v).op_draw(v).draw_flag,
        m.op_draw(v).op_draw(v).registers[0xF] == 1 <==> exists|p: int|
            0 <= p < 2048 && !#[trigger] m.screen[p] && sprite_lights(
                m.memory,
                m.index_register as int,
                m.registers[x_of(v)] as int,
                m.registers[y_of(v)] as int,
                nibble_of(v),
                p / 64,
                p % 64,
            ),
        m.op_draw(v).op_draw(v).registers[0xF] == 0 || m.op_draw(v).op_draw(v).registers[0xF] == 1,
{
    law_draw_twice_restores(
        m.screen,
        m.memory,
        m.index_register as int,
        m.registers[x_of(v)] as int,
        m.registers[y_of(v)] as int,
        nibble_of(v),
    );
}

/// The key that a wait takes is the lowest one held: it is held and none
/// below it is; and no key is taken only where none is held.
pub proof fn law_first_pressed_is_lowest(keys: Seq<bool>, from: int)
    requires
        0 <= from,
    ensures
        match first_pressed(keys, from) {
            Some(k) => from <= k < keys.len() && keys[k] && forall|j: int|
                from <= j < k ==> !keys[j],
            None => forall|j: int| from <= j < keys.len() ==> !keys[j],
        },
    decreases keys.len() - from,
{
    if from < keys.len() && !keys[from] {
        law_first_pressed_is_lowest(keys, from + 1);
    }
}

/// A cycle of a waiting machine fetches nothing and lets the timers rest:
/// with no key held it changes nothing, and with a key held it puts the
/// lowest such key in the awaited register and runs again; all else stays.
pub proof fn law_wait_resolves_on_first_key(m: MachineView, x: usize, random: u8)
    requires
        m.wf(),
        m.state == State::WaitingForKey(x),
    ensures
        m.cycle(random) is Ok,
        (forall|j: int| 0 <= j < 16 ==> !m.keys[j]) ==> m.cycle(random).unwrap() == m,
        forall|k: int|
            0 <= k < 16 && m.keys[k] && (forall|j: int| 0 <= j < k ==> !m.keys[j])
                ==> m.cycle(random).unwrap() == (MachineView {
                state: State::Running,
                registers: m.registers.update(x as int, k as u8),
                ..m
            }),
{
    law_first_pressed_is_lowest(m.keys, 0);
}

/// The machine after `n` cycles' shares of timer work.
pub open spec fn ticks(m: MachineView, n: nat) -> MachineView
    decreases n,
{
    if n == 0 {
        m
    } else {
        ticks(m, (n - 1) as nat).tick()
    }
}

/// Over any `TIMER_DIVIDER` cycles in a row each timer goes down exactly
/// once, stopping at zero, and the divider is back where it was.
pub proof fn law_timers_step_once_per_divider(m: MachineView)
    requires
        m.frame_timer < TIMER_DIVIDER,
    ensures
        ticks(m, TIMER_DIVIDER as nat).delay_timer == count_down(m.delay_timer),
        ticks(m, TIMER_DIVIDER as nat).sound_timer == count_down(m.sound_timer),
        ticks(m, TIMER_DIVIDER as nat).frame_timer == m.frame_timer,
{
    reveal_with_fuel(ticks, 5);
}

/// Timer work closes the audio gate exactly where the sound timer goes from
/// 1 to 0, and never opens it.
pub proof fn law_gate_closes_on_last_count(m: MachineView)
    requires
        m.frame_timer < TIMER_DIVIDER,
    ensures
        (m.audio_on && !m.tick().audio_on) <==> (m.audio_on && m.sound_timer == 1
            && m.tick().sound_timer == 0),
        !m.audio_on ==> !m.tick().audio_on,
        m.tick().sound_timer != m.sound_timer ==> m.frame_timer == 0,
{
}

/// Register dump moves registers 0 to `x` inclusive to memory at the index
/// register, leaves the rest of memory and the registers alone, and moves
/// the index register on by `x + 1`.
pub proof fn law_reg_dump_moves_inclusive(m: MachineView, v: u16)
    requires
        m.wf(),
        m.index_register + x_of(v) < MEMORY_SIZE,
    ensures
        m.op_reg_dump(v) is Ok,
        forall|k: int|
            0 <= k <= x_of(v) ==> m.op_reg_dump(v).unwrap().memory[m.index_register + k]
                == m.registers[k],
        forall|a: int|
            0 <= a < m.index_register || m.index_register + x_of(v) < a < MEMORY_SIZE
                ==> m.op_reg_dump(v).unwrap().memory[a] == m.memory[a],
        m.op_reg_dump(v).unwrap().registers == m.registers,
        m.op_reg_dump(v).unwrap().index_register == m.index_register + x_of(v) + 1,
{
}

/// Register load moves memory at the index register to registers 0 to `x`
/// inclusive, leaves the other registers and memory alone, and moves the
/// index register on by `x + 1`.
pub proof fn law_reg_load_moves_inclusive(m: MachineView, v: u16)
    requires
        m.wf(),
        m.index_register + x_of(v) < MEMORY_SIZE,
    ensures
        m.op_reg_load(v) is Ok,
        forall|k: int|
            0 <= k <= x_of(v) ==> m.op_reg_load(v).unwrap().registers[k] == m.memory[
                m.index_register + k],
        forall|k: int|
            x_of(v) < k < 16 ==> m.op_reg_load(v).unwrap().registers[k] == m.registers[k],
        m.op_reg_load(v).unwrap().memory == m.memory,
        m.op_reg_load(v).unwrap().index_register == m.index_register + x_of(v) + 1,
{
}

/// A transfer outside memory is a fault, for dump and load alike.
pub proof fn law_transfer_outside_memory_faults(m: MachineView, v: u16)
    requires
        m.wf(),
        m.index_register + x_of(v) >= MEMORY_SIZE,
    ensures
        m.op_reg_dump(v) == Err::<MachineView, FaultKind>(FaultKind::MemoryOutOfRange),
        m.op_reg_load(v) == Err::<MachineView, FaultKind>(FaultKind::MemoryOutOfRange),
{
}

} // verus!
