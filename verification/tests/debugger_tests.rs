use rip8::debugger::Debugger;
use rip8::machine::Machine;
use rip8::model::FaultKind;

fn debugger_with(bytes: &[u8]) -> Debugger {
    let mut m = Machine::new();
    m.load_program(bytes).unwrap();
    Debugger::new(m)
}

#[test]
fn new_debugger_is_paused_and_owes_no_step() {
    let mut d = debugger_with(&[0x60, 0x05]);
    assert!(!d.active);
    assert_eq!(d.divider, 1);
    assert_eq!(d.counter, 0);
    assert_eq!(d.remaining_steps, 0);
    assert_eq!(d.cycle().unwrap(), None);
    assert_eq!(d.machine.pc, 0x200);
    assert_eq!(d.machine.registers[0], 0);
}

#[test]
fn paused_debugger_runs_one_cycle_per_step() {
    let mut d = debugger_with(&[0x60, 0x05, 0x70, 0x03]);
    d.step();
    d.step();
    assert_eq!(d.remaining_steps, 2);
    assert_eq!(d.cycle().unwrap(), Some(false));
    assert_eq!(d.machine.registers[0], 5);
    assert_eq!(d.remaining_steps, 1);
    assert_eq!(d.cycle().unwrap(), Some(false));
    assert_eq!(d.machine.registers[0], 8);
    assert_eq!(d.cycle().unwrap(), None);
    assert_eq!(d.machine.pc, 0x204);
}

#[test]
fn active_debugger_runs_every_call_at_divider_one() {
    let mut d = debugger_with(&[0x60, 0x05, 0x70, 0x03]);
    d.toggle_pause();
    assert!(d.active);
    assert_eq!(d.cycle().unwrap(), Some(false));
    assert_eq!(d.cycle().unwrap(), Some(false));
    assert_eq!(d.machine.registers[0], 8);
    assert_eq!(d.counter, 0);
    d.toggle_pause();
    assert_eq!(d.cycle().unwrap(), None);
}

#[test]
fn active_debugger_runs_every_third_call_at_divider_three() {
    let mut d = debugger_with(&[0x60, 0x05, 0x70, 0x03]);
    d.toggle_pause();
    d.divider = 3;
    assert_eq!(d.cycle().unwrap(), None);
    assert_eq!(d.cycle().unwrap(), None);
    assert_eq!(d.counter, 2);
    assert_eq!(d.cycle().unwrap(), Some(false));
    assert_eq!(d.counter, 0);
    assert_eq!(d.machine.registers[0], 5);
}

#[test]
fn debugger_hands_keys_on_only_while_active() {
    let mut d = debugger_with(&[0x60, 0x05]);
    d.key_pressed(3);
    assert!(!d.machine.keys[3]);
    d.toggle_pause();
    d.key_pressed(3);
    assert!(d.machine.keys[3]);
    d.toggle_pause();
    d.key_released(3);
    assert!(d.machine.keys[3]);
    d.toggle_pause();
    d.key_released(3);
    assert!(!d.machine.keys[3]);
}

#[test]
fn debugger_reports_the_machine_fault() {
    let mut d = debugger_with(&[0x00, 0xEE]);
    d.step();
    let fault = d.cycle().unwrap_err();
    assert_eq!(fault.kind, FaultKind::StackUnderflow);
    assert_eq!(d.remaining_steps, 0);
}

#[test]
fn debugger_reports_a_halted_machine() {
    let mut d = debugger_with(&[0x1F, 0xFE]);
    d.machine.memory[0xFFE] = 0x60;
    d.toggle_pause();
    assert_eq!(d.cycle().unwrap(), Some(false));
    assert_eq!(d.cycle().unwrap(), Some(true));
    assert_eq!(d.cycle().unwrap(), Some(true));
}
