//! A CHIP-8 virtual machine: memory, registers, call stack, timers and a
//! monochrome display, advanced one instruction per cycle.

pub mod decode;
pub mod display;
pub mod model;
pub mod fault;
pub mod random;
pub mod machine;
pub mod laws;
pub mod debugger;
