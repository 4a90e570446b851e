//! An instruction-level emulator for an 8-bit, accumulator-based CPU in the
//! 6502 family, running over a flat 64 KiB memory.
//!
//! The crate is organised around a mathematical model of the machine
//! ([`machine::MachineState`]) and a small-step transition function
//! ([`machine::step_spec`]).  The executable engine ([`cpu::Cpu`]) is proved
//! to follow that transition function instruction by instruction, and the
//! laws in [`laws`] state the architectural guarantees (flag conventions,
//! zero-page wrap-around, stack and subroutine round trips) once and for all
//! states.

pub mod cpu;
pub mod errors;
pub mod laws;
pub mod machine;
pub mod mem;
pub mod op_codes;
pub mod proc_stat;
