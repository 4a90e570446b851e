//! The failure taxonomy of the engine, and the machine snapshot that every
//! fatal error carries back to the caller.

use vstd::prelude::*;
use crate::proc_stat::display_spec;

verus! {

/// The kinds of fatal condition.  The engine never recovers from any of
/// them: it stops the loop and surfaces the condition with a snapshot.
#[derive(Clone, Copy, Debug, PartialEq, Eq, Structural)]
pub enum ErrorKind {
    /// A fetched opcode byte has no registered handler.
    UnknownOpcode,
    /// The program counter or a resolved operand address left the memory.
    OutOfBounds,
    /// A recognized-but-not-implemented instruction placeholder.  Every
    /// opcode this engine recognizes is implemented, so no input currently
    /// produces this condition; it is part of the taxonomy so that a partial
    /// extension of the opcode table cannot silently proceed as a no-op.
    Unimplemented,
}

/// Full register and flag state for diagnosis, captured when execution
/// stops.  `flags` is the display form of the status register: eight
/// '0'/'1' characters, most significant bit first.
#[derive(Clone, Debug)]
pub struct Snapshot {
    pub pc: u16,
    pub sp: u16,
    pub a: u8,
    pub x: u8,
    pub y: u8,
    pub p: u8,
    pub flags: String,
}

impl Snapshot {
    /// The snapshot faithfully records the given machine registers.
    pub open spec fn records(
        &self,
        pc: u16,
        sp: u16,
        a: u8,
        x: u8,
        y: u8,
        p: u8,
    ) -> bool {
        &&& self.pc == pc
        &&& self.sp == sp
        &&& self.a == a
        &&& self.x == x
        &&& self.y == y
        &&& self.p == p
        &&& self.flags@ == display_spec(p)
    }
}

/// A fatal error: the condition kind plus the machine state at the fault.
#[derive(Clone, Debug)]
pub struct EmuError {
    pub kind: ErrorKind,
    pub snapshot: Snapshot,
}

} // verus!
