//! A pause and single-step control around a machine.

use vstd::prelude::*;
use crate::fault::Fault;
use crate::machine::{cycle_outcome, Machine};
use crate::model::MachineView;

verus! {

/// A machine that runs freely while active, at one machine cycle in every
/// `divider` calls, and by requested single steps while paused.
pub struct Debugger {
    pub active: bool,
    pub divider: u8,
    pub counter: u8,
    pub machine: Machine,
    pub remaining_steps: u8,
}

/// The machine's own result for a cycle that the debugger let through.
pub open spec fn machine_result(r: Result<Option<bool>, Fault>) -> Result<bool, Fault> {
    match r {
        Ok(Some(halted)) => Ok(halted),
        Ok(None) => Ok(false),
        Err(fault) => Err(fault),
    }
}

impl Debugger {
    /// Whether the machine is well formed and the call counter within the
    /// divider.
    pub open spec fn wf(&self) -> bool {
        &&& self.machine.wf()
        &&& self.divider >= 1
        &&& self.counter < self.divider
    }

    /// Whether the next call of `cycle` runs a machine cycle.
    pub open spec fn runs_machine(&self) -> bool {
        if self.active {
            self.counter + 1 == self.divider
        } else {
            self.remaining_steps > 0
        }
    }

    /// The call counter after the next call of `cycle`.
    pub open spec fn next_counter(&self) -> u8 {
        if !self.active {
            self.counter
        } else if self.counter + 1 == self.divider {
            0
        } else {
            (self.counter + 1) as u8
        }
    }

    /// The single steps still owed after the next call of `cycle`.
    pub open spec fn next_remaining_steps(&self) -> u8 {
        if !self.active && self.remaining_steps > 0 {
            (self.remaining_steps - 1) as u8
        } else {
            self.remaining_steps
        }
    }

    /// A paused debugger around `machine`, with no step owed.
    pub fn new(machine: Machine) -> (d: Debugger)
        ensures
            d.machine == machine,
            !d.active,
            d.divider == 1,
            d.counter == 0,
            d.remaining_steps == 0,
            machine.wf() ==> d.wf(),
    {
        Debugger { active: false, divider: 1, counter: 0, remaining_steps: 0, machine }
    }

    /// Pauses a running debugger, and lets a paused one run.
    pub fn toggle_pause(&mut self)
        ensures
            final(self).active == !old(self).active,
            final(self).divider == old(self).divider,
            final(self).counter == old(self).counter,
            final(self).machine == old(self).machine,
            final(self).remaining_steps == old(self).remaining_steps,
    {
        self.active = !self.active;
    }

    /// A key goes down; the machine learns of it only while active.
    pub fn key_pressed(&mut self, key: usize)
        requires
            key < 16,
        ensures
            final(self).machine@ == if old(self).active {
                MachineView {
                    keys: old(self).machine@.keys.update(key as int, true),
                    ..old(self).machine@
                }
            } else {
                old(self).machine@
            },
            final(self).active == old(self).active,
            final(self).divider == old(self).divider,
            final(self).counter == old(self).counter,
            final(self).remaining_steps == old(self).remaining_steps,
    {
        if self.active {
            self.machine.key_pressed(key);
        }
    }

    /// A key goes up; the machine learns of it only while active.
    pub fn key_released(&mut self, key: usize)
        requires
            key < 16,
        ensures
            final(self).machine@ == if old(self).active {
                MachineView {
                    keys: old(self).machine@.keys.update(key as int, false),
                    ..old(self).machine@
                }
            } else {
                old(self).machine@
            },
            final(self).active == old(self).active,
            final(self).divider == old(self).divider,
            final(self).counter == old(self).counter,
            final(self).remaining_steps == old(self).remaining_steps,
    {
        if self.active {
            self.machine.key_released(key);
        }
    }

    /// Requests one more single step.
    pub fn step(&mut self)
        requires
            old(self).remaining_steps < u8::MAX,
        ensures
            final(self).remaining_steps == old(self).remaining_steps + 1,
            final(self).active == old(self).active,
            final(self).divider == old(self).divider,
            final(self).counter == old(self).counter,
            final(self).machine == old(self).machine,
    {
        self.remaining_steps += 1;
    }

    /// One call of the driving loop. While active, every `divider`-th call
    /// runs a machine cycle; while paused, a call runs one where a step is
    /// owed, and uses the step up. Returns `None` where no machine cycle
    /// ran, else whether the machine is halted, or the machine's fault.
    pub fn cycle(&mut self) -> (r: Result<Option<bool>, Fault>)
        requires
            old(self).wf(),
        ensures
            final(self).wf(),
            final(self).active == old(self).active,
            final(self).divider == old(self).divider,
            final(self).counter == old(self).next_counter(),
            final(self).remaining_steps == old(self).next_remaining_steps(),
            !old(self).runs_machine() ==> r == Ok::<Option<bool>, Fault>(None)
                && final(self).machine@ == old(self).machine@,
            old(self).runs_machine() ==> r != Ok::<Option<bool>, Fault>(None) && exists|random: u8|
                cycle_outcome(
                    old(self).machine@,
                    random,
                    final(self).machine@,
                    machine_result(r),
                ),
    {
        let mut due = false;
        if self.active {
            self.counter += 1;
            if self.counter == self.divider {
                self.counter = 0;
                due = true;
            }
        } else if self.remaining_steps > 0 {
            self.remaining_steps -= 1;
            due = true;
        }
        if due {
            match self.machine.cycle() {
                Ok(halted) => Ok(Some(halted)),
                Err(fault) => Err(fault),
            }
        } else {
            Ok(None)
        }
    }
}

} // verus!
