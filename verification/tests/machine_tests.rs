use rip8::fault::LoadError;
use rip8::machine::Machine;
use rip8::model::{FaultKind, State};

fn machine_with(words: &[u16]) -> Machine {
    let mut bytes: Vec<u8> = Vec::new();
    for w in words {
        bytes.push((w >> 8) as u8);
        bytes.push((w & 0xFF) as u8);
    }
    let mut m = Machine::new();
    assert_eq!(m.load_program(&bytes), Ok(()));
    m
}

fn lit_cells(m: &Machine) -> usize {
    m.screen.iter().filter(|c| **c).count()
}

#[test]
fn new_machine_holds_font_and_starts_at_program_start() {
    let m = Machine::new();
    assert_eq!(m.pc, 0x200);
    assert_eq!(m.state, State::Running);
    assert_eq!(&m.memory[0..5], &[0xF0, 0x90, 0x90, 0x90, 0xF0]);
    assert_eq!(&m.memory[75..80], &[0xF0, 0x80, 0xF0, 0x80, 0x80]);
    assert_eq!(Machine::fontset()[5], 0x20);
    assert!(m.memory[80..].iter().all(|b| *b == 0));
    assert!(m.registers.iter().all(|b| *b == 0));
    assert!(m.stack.is_empty());
    assert!(!m.draw_flag);
    assert!(!m.audio_on);
    assert!(m.is_well_formed());
}

#[test]
fn load_program_copies_from_program_start() {
    let mut m = Machine::new();
    assert_eq!(m.load_program(&[0x12, 0x34, 0x56]), Ok(()));
    assert_eq!(&m.memory[0x200..0x204], &[0x12, 0x34, 0x56, 0x00]);
    assert_eq!(m.memory[0x1FF], 0);
    assert_eq!(m.memory[0], 0xF0);
}

#[test]
fn load_program_takes_a_program_that_fills_memory() {
    let mut m = Machine::new();
    let program = vec![0xABu8; 0xE00];
    assert_eq!(m.load_program(&program), Ok(()));
    assert_eq!(m.memory[0x200], 0xAB);
    assert_eq!(m.memory[0xFFF], 0xAB);
}

#[test]
fn load_program_refuses_a_program_that_does_not_fit() {
    let mut m = Machine::new();
    let program = vec![0xABu8; 0xE01];
    assert_eq!(m.load_program(&program), Err(LoadError::ProgramTooLarge));
    assert_eq!(m.memory[0x200], 0);
    assert_eq!(m.memory[0xFFF], 0);
}

#[test]
fn load_immediate_then_add_immediate() {
    let mut m = machine_with(&[0x6005, 0x7003]);
    assert_eq!(m.cycle().unwrap(), false);
    assert_eq!(m.registers[0], 5);
    assert_eq!(m.pc, 0x202);
    assert_eq!(m.cycle().unwrap(), false);
    assert_eq!(m.registers[0], 8);
    assert_eq!(m.pc, 0x204);
}

#[test]
fn set_index_call_and_return() {
    let mut m = machine_with(&[0xA300, 0x2350]);
    m.memory[0x350] = 0x00;
    m.memory[0x351] = 0xEE;
    m.cycle().unwrap();
    assert_eq!(m.index_register, 0x300);
    m.cycle().unwrap();
    assert_eq!(m.stack, vec![0x204]);
    assert_eq!(m.pc, 0x350);
    m.cycle().unwrap();
    assert!(m.stack.is_empty());
    assert_eq!(m.pc, 0x204);
}

#[test]
fn clear_screen_darkens_every_cell_and_marks_dirty() {
    let mut m = machine_with(&[0x00E0]);
    m.screen[0] = true;
    m.screen[1000] = true;
    m.screen[2047] = true;
    m.cycle().unwrap();
    assert_eq!(m.screen.len(), 2048);
    assert_eq!(lit_cells(&m), 0);
    assert!(m.draw_flag);
}

#[test]
fn draw_complete_clears_the_dirty_flag() {
    let mut m = machine_with(&[0x00E0]);
    m.cycle().unwrap();
    assert!(m.draw_flag);
    m.draw_complete();
    assert!(!m.draw_flag);
}

#[test]
fn draw_row_twice_toggles_it_back() {
    let mut m = machine_with(&[0xA300, 0xD001, 0xD001]);
    m.memory[0x300] = 0xFF;
    m.cycle().unwrap();
    m.cycle().unwrap();
    assert_eq!(lit_cells(&m), 8);
    assert!(m.screen[0..8].iter().all(|c| *c));
    assert_eq!(m.registers[0xF], 0);
    assert!(m.draw_flag);
    m.cycle().unwrap();
    assert_eq!(lit_cells(&m), 0);
    // The second draw lights cells that are lit already: the flag is set.
    assert_eq!(m.registers[0xF], 1);
}

#[test]
fn draw_uses_the_most_significant_bit_first() {
    let mut m = machine_with(&[0xA300, 0x6003, 0x6102, 0xD012]);
    m.memory[0x300] = 0b1010_0000;
    m.memory[0x301] = 0b0000_0001;
    for _ in 0..4 {
        m.cycle().unwrap();
    }
    assert_eq!(lit_cells(&m), 3);
    assert!(m.screen[2 * 64 + 3]);
    assert!(m.screen[2 * 64 + 5]);
    assert!(m.screen[3 * 64 + 10]);
    assert_eq!(m.registers[0xF], 0);
}

#[test]
fn draw_clips_at_the_right_and_bottom_edges() {
    let mut m = machine_with(&[0xA300, 0x603C, 0x611F, 0xD012]);
    m.memory[0x300] = 0xFF;
    m.memory[0x301] = 0xFF;
    for _ in 0..4 {
        m.cycle().unwrap();
    }
    assert_eq!(lit_cells(&m), 4);
    assert!(m.screen[31 * 64 + 60..31 * 64 + 64].iter().all(|c| *c));
    assert!(m.draw_flag);
}

#[test]
fn draw_off_screen_still_marks_dirty() {
    let mut m = machine_with(&[0x6040, 0xD001]);
    m.cycle().unwrap();
    m.cycle().unwrap();
    assert_eq!(lit_cells(&m), 0);
    assert!(m.draw_flag);
    assert_eq!(m.registers[0xF], 0);
}

#[test]
fn draw_drops_rows_stored_past_memory() {
    let mut m = Machine::new();
    m.memory[0xFFF] = 0x80;
    m.index_register = 0xFFF;
    m.draw(0xD003);
    assert_eq!(lit_cells(&m), 1);
    assert!(m.screen[0]);
}

#[test]
fn draw_over_another_sprite_sets_the_flag() {
    let mut m = Machine::new();
    m.memory[0x300] = 0xF0;
    m.memory[0x301] = 0x18;
    m.index_register = 0x300;
    m.draw(0xD001);
    assert_eq!(m.registers[0xF], 0);
    m.index_register = 0x301;
    m.draw(0xD001);
    assert_eq!(m.registers[0xF], 1);
    let row: Vec<bool> = m.screen[0..8].to_vec();
    assert_eq!(row, vec![true, true, true, false, true, false, false, false]);
}

#[test]
fn add_immediate_wraps_without_flag() {
    let mut m = Machine::new();
    m.registers[3] = 0xFE;
    m.registers[0xF] = 7;
    m.add_const(0x7305);
    assert_eq!(m.registers[3], 0x03);
    assert_eq!(m.registers[0xF], 7);
}

#[test]
fn add_sets_flag_on_overflow_only() {
    let mut m = Machine::new();
    m.registers[1] = 200;
    m.registers[2] = 100;
    m.add_reg(0x8124);
    assert_eq!(m.registers[1], 44);
    assert_eq!(m.registers[0xF], 1);
    m.add_reg(0x8124);
    assert_eq!(m.registers[1], 144);
    assert_eq!(m.registers[0xF], 0);
}

#[test]
fn subtract_sets_flag_on_borrow() {
    let mut m = Machine::new();
    m.registers[1] = 5;
    m.registers[2] = 7;
    m.sub_reg(0x8125);
    assert_eq!(m.registers[1], 254);
    assert_eq!(m.registers[0xF], 1);
    m.sub_reg(0x8125);
    assert_eq!(m.registers[1], 247);
    assert_eq!(m.registers[0xF], 0);
}

#[test]
fn reverse_subtract_sets_flag_on_borrow() {
    let mut m = Machine::new();
    m.registers[1] = 7;
    m.registers[2] = 5;
    m.rev_sub(0x8127);
    assert_eq!(m.registers[1], 254);
    assert_eq!(m.registers[0xF], 1);
    m.registers[1] = 2;
    m.rev_sub(0x8127);
    assert_eq!(m.registers[1], 3);
    assert_eq!(m.registers[0xF], 0);
}

#[test]
fn shifts_keep_the_bit_shifted_out() {
    let mut m = Machine::new();
    m.registers[4] = 0b1000_0011;
    m.shift_right(0x8406);
    assert_eq!(m.registers[4], 0b0100_0001);
    assert_eq!(m.registers[0xF], 1);
    m.registers[4] = 0b1000_0011;
    m.shift_left(0x840E);
    assert_eq!(m.registers[4], 0b0000_0110);
    assert_eq!(m.registers[0xF], 0x80);
    m.shift_left(0x840E);
    assert_eq!(m.registers[4], 0b0000_1100);
    assert_eq!(m.registers[0xF], 0);
}

#[test]
fn bitwise_and_assign_operations() {
    let mut m = machine_with(&[0x8120, 0x8121, 0x8122, 0x8123]);
    m.registers[1] = 0b1100;
    m.registers[2] = 0b1010;
    m.cycle().unwrap();
    assert_eq!(m.registers[1], 0b1010);
    m.registers[1] = 0b1100;
    m.cycle().unwrap();
    assert_eq!(m.registers[1], 0b1110);
    m.registers[1] = 0b1100;
    m.cycle().unwrap();
    assert_eq!(m.registers[1], 0b1000);
    m.registers[1] = 0b1100;
    m.cycle().unwrap();
    assert_eq!(m.registers[1], 0b0110);
}

#[test]
fn undefined_arithmetic_slot_is_a_fault() {
    let mut m = machine_with(&[0x8128]);
    m.registers[3] = 9;
    m.index_register = 0x123;
    m.stack.push(0x222);
    let fault = m.cycle().unwrap_err();
    assert_eq!(fault.kind, FaultKind::InvalidOpcode);
    assert_eq!(fault.opcode, 0x8128);
    assert_eq!(fault.pc, 0x202);
    assert_eq!(fault.index_register, 0x123);
    assert_eq!(fault.registers[3], 9);
    assert_eq!(fault.stack, vec![0x222]);
    assert_eq!(m.pc, 0x200);
    assert_eq!(m.state, State::Running);
}

#[test]
fn invalid_opcode_takes_the_snapshot() {
    let mut m = Machine::new();
    m.registers[0xA] = 0x55;
    let fault = m.invalid_opcode(0xFFFF);
    assert_eq!(fault.kind, FaultKind::InvalidOpcode);
    assert_eq!(fault.opcode, 0xFFFF);
    assert_eq!(fault.pc, 0x200);
    assert_eq!(fault.registers[0xA], 0x55);
    assert!(fault.stack.is_empty());
}

#[test]
fn unmatched_low_bytes_are_faults() {
    for word in [0x0000u16, 0x00E1, 0xE19F, 0xE000, 0xF0FF, 0xF100] {
        let mut m = machine_with(&[word]);
        let fault = m.cycle().unwrap_err();
        assert_eq!(fault.kind, FaultKind::InvalidOpcode);
        assert_eq!(fault.opcode, word);
    }
}

#[test]
fn call_on_a_full_stack_is_a_fault() {
    let mut m = machine_with(&[0x2200]);
    for _ in 0..16 {
        assert_eq!(m.cycle().unwrap(), false);
    }
    assert_eq!(m.stack.len(), 16);
    let fault = m.cycle().unwrap_err();
    assert_eq!(fault.kind, FaultKind::StackOverflow);
    assert_eq!(fault.stack.len(), 16);
    assert_eq!(m.stack.len(), 16);
}

#[test]
fn return_on_an_empty_stack_is_a_fault() {
    let mut m = machine_with(&[0x00EE]);
    let fault = m.cycle().unwrap_err();
    assert_eq!(fault.kind, FaultKind::StackUnderflow);
    assert_eq!(fault.opcode, 0x00EE);
}

#[test]
fn fetch_at_the_last_byte_is_a_fault() {
    let mut m = machine_with(&[0x1FFF]);
    assert_eq!(m.cycle().unwrap(), false);
    assert_eq!(m.pc, 0xFFF);
    let fault = m.cycle().unwrap_err();
    assert_eq!(fault.kind, FaultKind::FetchOutOfRange);
    assert_eq!(fault.opcode, 0);
    assert_eq!(fault.pc, 0xFFF);
    assert_eq!(m.pc, 0xFFF);
}

#[test]
fn transfer_outside_memory_is_a_fault() {
    for word in [0xF033u16, 0xF155, 0xF165] {
        let mut m = machine_with(&[word]);
        m.index_register = 0xFFF;
        let fault = m.cycle().unwrap_err();
        assert_eq!(fault.kind, FaultKind::MemoryOutOfRange);
        assert_eq!(m.memory[0xFFF], 0);
        assert_eq!(m.index_register, 0xFFF);
    }
}

#[test]
fn key_test_on_a_register_past_the_keys_is_a_fault() {
    for word in [0xE09Eu16, 0xE0A1] {
        let mut m = machine_with(&[word]);
        m.registers[0] = 16;
        let fault = m.cycle().unwrap_err();
        assert_eq!(fault.kind, FaultKind::KeyOutOfRange);
    }
}

#[test]
fn machine_halts_when_pc_leaves_memory() {
    let mut m = machine_with(&[0x1FFE]);
    m.memory[0xFFE] = 0x60;
    m.memory[0xFFF] = 0x09;
    assert_eq!(m.cycle().unwrap(), false);
    assert_eq!(m.pc, 0xFFE);
    assert_eq!(m.cycle().unwrap(), true);
    assert_eq!(m.pc, 0x1000);
    assert_eq!(m.state, State::Halted);
    assert_eq!(m.registers[0], 9);
    m.registers[0] = 1;
    assert_eq!(m.cycle().unwrap(), true);
    assert_eq!(m.pc, 0x1000);
    assert_eq!(m.registers[0], 1);
    assert_eq!(m.frame_timer, 2);
}

#[test]
fn jump_with_offset_past_memory_halts() {
    let mut m = machine_with(&[0xBFFF]);
    m.registers[0] = 0xFF;
    assert_eq!(m.cycle().unwrap(), true);
    assert_eq!(m.pc, 0xFFF + 0xFF);
    assert_eq!(m.state, State::Halted);
}

#[test]
fn pc_stays_even_and_in_program_area_without_transfers() {
    let mut m = machine_with(&[0x6001, 0x3001, 0x0000, 0x4001, 0x5010, 0x9010, 0x0000, 0x6103]);
    let expected = [0x202usize, 0x206, 0x208, 0x20A, 0x20E, 0x210];
    for pc in expected {
        assert_eq!(m.cycle().unwrap(), false);
        assert_eq!(m.pc, pc);
        assert_eq!(m.pc % 2, 0);
        assert!(m.pc >= 0x200 && m.pc < 0x1000);
    }
}

#[test]
fn key_skips_follow_the_latch() {
    let mut m = machine_with(&[0x6007, 0xE09E, 0xE0A1, 0x0000, 0xE09E]);
    m.cycle().unwrap();
    m.cycle().unwrap();
    assert_eq!(m.pc, 0x204);
    m.cycle().unwrap();
    assert_eq!(m.pc, 0x208);
    m.key_pressed(7);
    m.cycle().unwrap();
    assert_eq!(m.pc, 0x20C);
    m.key_released(7);
    assert!(!m.keys[7]);
}

#[test]
fn key_wait_takes_a_key_already_held() {
    let mut m = machine_with(&[0xF20A]);
    m.key_pressed(9);
    m.key_pressed(4);
    m.cycle().unwrap();
    assert_eq!(m.state, State::Running);
    assert_eq!(m.registers[2], 4);
    assert_eq!(m.pc, 0x202);
}

#[test]
fn key_wait_suspends_until_the_lowest_key() {
    let mut m = machine_with(&[0xF20A, 0x6105]);
    m.cycle().unwrap();
    assert_eq!(m.state, State::WaitingForKey(2));
    assert_eq!(m.pc, 0x202);
    let timer = m.frame_timer;
    for _ in 0..5 {
        assert_eq!(m.cycle().unwrap(), false);
        assert_eq!(m.state, State::WaitingForKey(2));
        assert_eq!(m.pc, 0x202);
        assert_eq!(m.frame_timer, timer);
        assert_eq!(m.registers[1], 0);
    }
    m.key_pressed(0xB);
    m.key_pressed(3);
    m.key_pressed(0xF);
    assert_eq!(m.lowest_pressed(), Some(3));
    m.cycle().unwrap();
    assert_eq!(m.state, State::Running);
    assert_eq!(m.registers[2], 3);
    assert_eq!(m.pc, 0x202);
    assert_eq!(m.registers[1], 0);
    m.cycle().unwrap();
    assert_eq!(m.registers[1], 5);
}

#[test]
fn timers_go_down_once_in_four_cycles() {
    let mut m = machine_with(&[0x1200]);
    m.delay_timer = 3;
    m.frame_timer = 3;
    let mut seen = Vec::new();
    for _ in 0..16 {
        m.cycle().unwrap();
        seen.push(m.delay_timer);
    }
    assert_eq!(seen, vec![3, 3, 3, 2, 2, 2, 2, 1, 1, 1, 1, 0, 0, 0, 0, 0]);
}

#[test]
fn tick_timers_counts_the_divider_down() {
    let mut m = Machine::new();
    m.delay_timer = 9;
    m.sound_timer = 0;
    m.tick_timers();
    assert_eq!((m.delay_timer, m.sound_timer, m.frame_timer), (8, 0, 3));
    m.tick_timers();
    assert_eq!((m.delay_timer, m.sound_timer, m.frame_timer), (8, 0, 2));
    m.tick_timers();
    m.tick_timers();
    assert_eq!((m.delay_timer, m.sound_timer, m.frame_timer), (8, 0, 0));
    m.tick_timers();
    assert_eq!((m.delay_timer, m.sound_timer, m.frame_timer), (7, 0, 3));
}

#[test]
fn sound_gate_opens_on_set_and_closes_on_last_count() {
    let mut m = machine_with(&[0x6005, 0xF018, 0x1204]);
    m.cycle().unwrap();
    assert!(!m.audio_on);
    m.cycle().unwrap();
    assert_eq!(m.sound_timer, 5);
    assert!(m.audio_on);
    for _ in 0..18 {
        m.cycle().unwrap();
        assert!(m.audio_on);
        assert!(m.sound_timer >= 1);
    }
    assert_eq!(m.sound_timer, 1);
    m.cycle().unwrap();
    assert_eq!(m.sound_timer, 0);
    assert!(!m.audio_on);
    m.cycle().unwrap();
    assert!(!m.audio_on);
}

#[test]
fn setting_the_sound_timer_to_zero_leaves_the_gate() {
    let mut m = Machine::new();
    m.set_sound(0xF018);
    assert!(!m.audio_on);
    assert_eq!(m.sound_timer, 0);
}

#[test]
fn delay_timer_is_set_and_read() {
    let mut m = machine_with(&[0x602A, 0xF015, 0xF107]);
    m.frame_timer = 3;
    m.cycle().unwrap();
    m.cycle().unwrap();
    assert_eq!(m.delay_timer, 0x2A);
    m.cycle().unwrap();
    assert_eq!(m.registers[1], 0x2A);
}

#[test]
fn register_dump_moves_registers_inclusive() {
    let mut m = machine_with(&[0xA300, 0xF255]);
    m.registers[0] = 10;
    m.registers[1] = 11;
    m.registers[2] = 12;
    m.registers[3] = 13;
    m.cycle().unwrap();
    m.cycle().unwrap();
    assert_eq!(&m.memory[0x2FF..0x304], &[0, 10, 11, 12, 0]);
    assert_eq!(m.index_register, 0x303);
}

#[test]
fn register_load_moves_registers_inclusive() {
    let mut m = machine_with(&[0xA300, 0xF265]);
    m.memory[0x300] = 20;
    m.memory[0x301] = 21;
    m.memory[0x302] = 22;
    m.memory[0x303] = 23;
    m.registers[3] = 99;
    m.cycle().unwrap();
    m.cycle().unwrap();
    assert_eq!(&m.registers[0..4], &[20, 21, 22, 99]);
    assert_eq!(m.index_register, 0x303);
}

#[test]
fn register_dump_reaches_the_last_byte() {
    let mut m = Machine::new();
    m.index_register = 0xFFF;
    m.registers[0] = 0x77;
    assert_eq!(m.reg_dump(0xF055), Ok(()));
    assert_eq!(m.memory[0xFFF], 0x77);
    assert_eq!(m.index_register, 0x1000);
}

#[test]
fn bcd_splits_into_three_digits() {
    let mut m = machine_with(&[0xA300, 0x60FE, 0xF033]);
    for _ in 0..3 {
        m.cycle().unwrap();
    }
    assert_eq!(&m.memory[0x300..0x303], &[2, 5, 4]);
    assert_eq!(m.index_register, 0x300);
}

#[test]
fn index_of_glyph_is_five_times_the_digit() {
    let mut m = machine_with(&[0x600A, 0xF029]);
    m.cycle().unwrap();
    m.cycle().unwrap();
    assert_eq!(m.index_register, 50);
}

#[test]
fn add_to_index_flags_values_past_twelve_bits() {
    let mut m = Machine::new();
    m.index_register = 0x0100;
    m.add_index(0xF11E);
    assert_eq!(m.index_register, 0x021E);
    assert_eq!(m.registers[0xF], 0);
    m.index_register = 0x0F00;
    m.add_index(0xF11E);
    assert_eq!(m.index_register, 0x101E);
    assert_eq!(m.registers[0xF], 1);
    m.index_register = 0xFFFF;
    m.add_index(0xF01E);
    assert_eq!(m.index_register, 0x001D);
    assert_eq!(m.registers[0xF], 0);
}

#[test]
fn random_instruction_keeps_only_masked_bits() {
    let mut m = Machine::new();
    m.rand(0xC30F, 0xA7);
    assert_eq!(m.registers[3], 0x07);
    for _ in 0..64 {
        let mut m = machine_with(&[0xC10F, 0xC200]);
        assert!(m.wants_random());
        m.cycle().unwrap();
        assert!(m.registers[1] <= 0x0F);
        m.cycle().unwrap();
        assert_eq!(m.registers[2], 0);
        assert!(!m.wants_random());
    }
}

#[test]
fn random_instruction_draws_varying_bytes() {
    let mut seen = [false; 256];
    for _ in 0..4096 {
        let mut m = machine_with(&[0xC0FF]);
        m.cycle().unwrap();
        seen[m.registers[0] as usize] = true;
    }
    assert!(seen.iter().filter(|s| **s).count() > 1);
}

#[test]
fn step_with_a_given_byte_is_exact() {
    let mut m = machine_with(&[0xC0F0]);
    assert_eq!(m.step(0xAB).unwrap(), false);
    assert_eq!(m.registers[0], 0xA0);
    assert_eq!(m.pc, 0x202);
    assert_eq!(m.frame_timer, 3);
}

#[test]
fn fetch_reads_high_byte_first() {
    let mut m = machine_with(&[0xABCD]);
    assert_eq!(m.fetch_opcode(), 0xABCD);
    assert_eq!(m.pc, 0x202);
}

#[test]
fn jump_and_skip_instructions_set_pc() {
    let mut m = Machine::new();
    m.goto(0x1ABC);
    assert_eq!(m.pc, 0xABC);
    m.registers[0] = 4;
    m.jump(0xB300);
    assert_eq!(m.pc, 0x304);
    m.registers[1] = 7;
    m.cond_eq_const(0x3107);
    assert_eq!(m.pc, 0x306);
    m.cond_eq_const(0x3108);
    assert_eq!(m.pc, 0x306);
    m.cond_neq_const(0x4108);
    assert_eq!(m.pc, 0x308);
    m.registers[2] = 7;
    m.cond_eq_reg(0x5120);
    assert_eq!(m.pc, 0x30A);
    m.cond_neq_reg(0x9120);
    assert_eq!(m.pc, 0x30A);
}

#[test]
fn well_formedness_is_tested() {
    let mut m = Machine::new();
    assert!(m.is_well_formed());
    m.frame_timer = 4;
    assert!(!m.is_well_formed());
    m.frame_timer = 0;
    m.pc = 0x1000;
    assert!(!m.is_well_formed());
    m.state = State::Halted;
    assert!(m.is_well_formed());
    m.state = State::WaitingForKey(16);
    m.pc = 0x200;
    assert!(!m.is_well_formed());
}

#[test]
fn draw_twice_over_a_pattern_gives_it_back() {
    let mut m = Machine::new();
    for p in [0usize, 5, 64, 70, 131, 2047] {
        m.screen[p] = true;
    }
    let before = m.screen;
    m.memory[0x300] = 0b1100_0110;
    m.memory[0x301] = 0b0011_0000;
    m.memory[0x302] = 0b1000_0001;
    m.index_register = 0x300;
    m.registers[1] = 2;
    m.registers[2] = 0;
    m.draw(0xD123);
    assert!(m.screen != before);
    assert_eq!(m.registers[0xF], 0);
    m.draw(0xD123);
    assert!(m.screen == before);
    assert_eq!(m.registers[0xF], 1);
    assert!(m.draw_flag);
}

#[test]
fn key_latches_cover_all_sixteen_keys() {
    let mut m = Machine::new();
    m.key_pressed(0);
    m.key_pressed(15);
    assert!(m.keys[0] && m.keys[15]);
    assert_eq!(m.keys.iter().filter(|k| **k).count(), 2);
    assert_eq!(m.lowest_pressed(), Some(0));
    m.key_released(0);
    assert_eq!(m.lowest_pressed(), Some(15));
    m.key_released(15);
    assert_eq!(m.lowest_pressed(), None);
}
