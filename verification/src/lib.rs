//! An interpreter for a 16-bit-opcode virtual machine with sixteen byte
//! registers, 4 KiB of memory, a sixteen-entry call stack, two countdown
//! timers, a 64x32 monochrome display and a one-key input latch.
//!
//! The machine state is the plain struct [`Cpu`]; its mathematical model is
//! [`machine::Machine`], and every operation is specified as a function on
//! that model.

pub mod fault;
pub mod decode;
pub mod font;
pub mod keypad;
pub mod laws;
pub mod machine;
pub mod cpu;
mod random;

pub use cpu::{Cpu, Signals};
pub use decode::{decode, Instruction};
pub use fault::Fault;
pub use keypad::{keycode_to_u8, Input};
