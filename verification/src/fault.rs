//! The errors that the machine reports in place of stopping the process.

use vstd::prelude::*;
use crate::model::{FaultKind, MachineView};

verus! {

/// A fatal fault, with the diagnostic snapshot taken when it was met.
#[derive(Clone, Debug)]
pub struct Fault {
    pub kind: FaultKind,
    /// The instruction word at fault; 0 where none could be read.
    pub opcode: u16,
    pub pc: usize,
    pub index_register: u16,
    pub registers: [u8; 16],
    pub stack: Vec<u16>,
}

impl Fault {
    /// Whether this fault is the snapshot of `m` for `kind` and `opcode`.
    pub open spec fn describes(&self, m: MachineView, kind: FaultKind, opcode: u16) -> bool {
        &&& self.kind == kind
        &&& self.opcode == opcode
        &&& self.pc == m.pc
        &&& self.index_register == m.index_register
        &&& self.registers@ == m.registers
        &&& self.stack@ == m.stack
    }
}

/// Why a program was not loaded.
#[derive(Copy, Clone, Debug, PartialEq, Eq, Structural)]
pub enum LoadError {
    /// The program is longer than the memory from the program start on.
    ProgramTooLarge,
}

} // verus!
