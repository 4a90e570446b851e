//! The mathematical model of the machine: a ghost state, the semantics of
//! every addressing mode and instruction, and the small-step transition
//! function that the executable engine is proved to follow.

use vstd::prelude::*;
use crate::errors::ErrorKind;
use crate::mem::word_at;
use crate::op_codes::{AddrMode, Instruction, sdecode};
use crate::proc_stat::{flag_set, FLAG_C, FLAG_N, FLAG_Z};

verus! {

/// The whole machine at one instant: program counter, stack pointer, the
/// three 8-bit registers, the flag byte, and the memory contents.
#[verifier::ext_equal]
pub ghost struct MachineState {
    pub pc: u16,
    pub sp: u16,
    pub a: u8,
    pub x: u8,
    pub y: u8,
    pub p: u8,
    pub mem: Seq<u8>,
}

/// A valid machine state: the memory holds exactly one byte per address.
pub open spec fn wf_state(s: MachineState) -> bool {
    s.mem.len() == 0x10000
}

/// The flag byte after a result byte `v` was produced: Z iff `v` is zero,
/// N iff bit 7 of `v` is set, all other flags kept.
pub open spec fn zn_update(p: u8, v: u8) -> u8 {
    flag_set(flag_set(p, FLAG_Z, v == 0), FLAG_N, v & 0x80 != 0)
}

/// The flag byte after a right shift of the operand byte `v`: carry from
/// bit 0 of `v` before the shift, Z from the shifted result, N always
/// cleared (a right shift can never produce a negative result).
pub open spec fn lsr_update(p: u8, v: u8) -> u8 {
    flag_set(flag_set(flag_set(p, FLAG_C, v & 0x01 != 0), FLAG_Z, v >> 1u8 == 0), FLAG_N, false)
}

/// One byte fetched at the program counter, which then advances.  Fails,
/// leaving the state unchanged, when the counter cannot advance without
/// leaving the memory.
pub open spec fn sfetch_byte(s: MachineState) -> Result<(u8, MachineState), MachineState> {
    if s.pc == 0xFFFF {
        Err(s)
    } else {
        Ok((s.mem[s.pc as int], MachineState { pc: (s.pc + 1) as u16, ..s }))
    }
}

/// A little-endian word fetched at the program counter, which then advances
/// by two.  Fails, leaving the state unchanged, when the counter cannot
/// advance past both bytes without leaving the memory.
pub open spec fn sfetch_word(s: MachineState) -> Result<(u16, MachineState), MachineState> {
    if s.pc >= 0xFFFE {
        Err(s)
    } else {
        Ok((word_at(s.mem, s.pc as int), MachineState { pc: (s.pc + 2) as u16, ..s }))
    }
}

/// The effective address of a non-immediate addressing mode, together with
/// the state after the operand bytes were fetched.  An `Err` is the fatal
/// out-of-bounds case, carrying the state at the fault.  (The immediate
/// mode has no effective address; it resolves to the fault case and is
/// never asked for one.)
pub open spec fn sresolve_ea(s: MachineState, m: AddrMode) -> Result<
    (u16, MachineState),
    MachineState,
> {
    match m {
        AddrMode::Immediate => Err(s),
        AddrMode::ZeroPage => match sfetch_byte(s) {
            Ok((b, s1)) => Ok((b as u16, s1)),
            Err(f) => Err(f),
        },
        AddrMode::ZeroPageX => match sfetch_byte(s) {
            Ok((b, s1)) => Ok((((b + s.x) % 256) as u16, s1)),
            Err(f) => Err(f),
        },
        AddrMode::ZeroPageY => match sfetch_byte(s) {
            Ok((b, s1)) => Ok((((b + s.y) % 256) as u16, s1)),
            Err(f) => Err(f),
        },
        AddrMode::Absolute => match sfetch_word(s) {
            Ok((w, s1)) => Ok((w, s1)),
            Err(f) => Err(f),
        },
        AddrMode::AbsoluteX => match sfetch_word(s) {
            Ok((w, s1)) => if w + s.x > 0xFFFF {
                Err(s1)
            } else {
                Ok(((w + s.x) as u16, s1))
            },
            Err(f) => Err(f),
        },
        AddrMode::AbsoluteY => match sfetch_word(s) {
            Ok((w, s1)) => if w + s.y > 0xFFFF {
                Err(s1)
            } else {
                Ok(((w + s.y) as u16, s1))
            },
            Err(f) => Err(f),
        },
        AddrMode::IndexedIndirect => match sfetch_byte(s) {
            Ok((b, s1)) => Ok((word_at(s.mem, (b + s.x) % 256), s1)),
            Err(f) => Err(f),
        },
        AddrMode::IndirectIndexed => match sfetch_byte(s) {
            Ok((b, s1)) => {
                let base = word_at(s.mem, b as int);
                if base + s.y > 0xFFFF {
                    Err(s1)
                } else {
                    Ok(((base + s.y) as u16, s1))
                }
            },
            Err(f) => Err(f),
        },
    }
}

/// The operand byte an instruction reads under the given addressing mode:
/// the fetched byte itself for the immediate mode, the byte at the
/// effective address otherwise.
pub open spec fn sread_operand(s: MachineState, m: AddrMode) -> Result<
    (u8, MachineState),
    MachineState,
> {
    match m {
        AddrMode::Immediate => sfetch_byte(s),
        _ => match sresolve_ea(s, m) {
            Ok((ea, s1)) => Ok((s1.mem[ea as int], s1)),
            Err(f) => Err(f),
        },
    }
}

/// A byte pushed onto the stack: written at the stack pointer's address,
/// which then decrements.  Fails, leaving the state unchanged, when the
/// pointer cannot decrement without leaving the memory.
pub open spec fn spush(s: MachineState, b: u8) -> Result<MachineState, MachineState> {
    if s.sp == 0 {
        Err(s)
    } else {
        Ok(MachineState { sp: (s.sp - 1) as u16, mem: s.mem.update(s.sp as int, b), ..s })
    }
}

/// A byte popped from the stack: the stack pointer increments, then the
/// byte at its new address is read.  Fails, leaving the state unchanged,
/// when the pointer cannot increment without leaving the memory.
pub open spec fn spop(s: MachineState) -> Result<(u8, MachineState), MachineState> {
    if s.sp == 0xFFFF {
        Err(s)
    } else {
        Ok((s.mem[s.sp + 1], MachineState { sp: (s.sp + 1) as u16, ..s }))
    }
}

/// The outcome of one transition: the machine keeps running in a new state,
/// halts cleanly in a final state, or stops with a fatal condition in the
/// state at the fault.
pub ghost enum StepResult {
    Next(MachineState),
    Halted(MachineState),
    Fatal(ErrorKind, MachineState),
}

/// The semantics of one decoded instruction, starting from the state after
/// the opcode byte was fetched.
pub open spec fn instr_spec(s: MachineState, i: Instruction) -> StepResult {
    match i {
        Instruction::Lda(m) => match sread_operand(s, m) {
            Ok((v, s1)) => StepResult::Next(
                MachineState { a: v, p: zn_update(s1.p, v), ..s1 },
            ),
            Err(f) => StepResult::Fatal(ErrorKind::OutOfBounds, f),
        },
        Instruction::Ldx(m) => match sread_operand(s, m) {
            Ok((v, s1)) => StepResult::Next(
                MachineState { x: v, p: zn_update(s1.p, v), ..s1 },
            ),
            Err(f) => StepResult::Fatal(ErrorKind::OutOfBounds, f),
        },
        Instruction::Ldy(m) => match sread_operand(s, m) {
            Ok((v, s1)) => StepResult::Next(
                MachineState { y: v, p: zn_update(s1.p, v), ..s1 },
            ),
            Err(f) => StepResult::Fatal(ErrorKind::OutOfBounds, f),
        },
        Instruction::Ora(m) => match sread_operand(s, m) {
            Ok((v, s1)) => StepResult::Next(
                MachineState { a: s1.a | v, p: zn_update(s1.p, s1.a | v), ..s1 },
            ),
            Err(f) => StepResult::Fatal(ErrorKind::OutOfBounds, f),
        },
        Instruction::Anda(m) => match sread_operand(s, m) {
            Ok((v, s1)) => StepResult::Next(
                MachineState { a: s1.a & v, p: zn_update(s1.p, s1.a & v), ..s1 },
            ),
            Err(f) => StepResult::Fatal(ErrorKind::OutOfBounds, f),
        },
        Instruction::Eor(m) => match sread_operand(s, m) {
            Ok((v, s1)) => StepResult::Next(
                MachineState { a: s1.a ^ v, p: zn_update(s1.p, s1.a ^ v), ..s1 },
            ),
            Err(f) => StepResult::Fatal(ErrorKind::OutOfBounds, f),
        },
        Instruction::LsrAcc => StepResult::Next(
            MachineState { a: s.a >> 1u8, p: lsr_update(s.p, s.a), ..s },
        ),
        Instruction::LsrMem(m) => match sresolve_ea(s, m) {
            Ok((ea, s1)) => {
                let v = s1.mem[ea as int];
                StepResult::Next(
                    MachineState {
                        mem: s1.mem.update(ea as int, v >> 1u8),
                        p: lsr_update(s1.p, v),
                        ..s1
                    },
                )
            },
            Err(f) => StepResult::Fatal(ErrorKind::OutOfBounds, f),
        },
        Instruction::Pha => match spush(s, s.a) {
            Ok(s1) => StepResult::Next(s1),
            Err(f) => StepResult::Fatal(ErrorKind::OutOfBounds, f),
        },
        Instruction::Php => match spush(s, s.p) {
            Ok(s1) => StepResult::Next(s1),
            Err(f) => StepResult::Fatal(ErrorKind::OutOfBounds, f),
        },
        Instruction::Pla => match spop(s) {
            Ok((v, s1)) => StepResult::Next(
                MachineState { a: v, p: zn_update(s1.p, v), ..s1 },
            ),
            Err(f) => StepResult::Fatal(ErrorKind::OutOfBounds, f),
        },
        Instruction::Plp => match spop(s) {
            Ok((v, s1)) => StepResult::Next(MachineState { p: v, ..s1 }),
            Err(f) => StepResult::Fatal(ErrorKind::OutOfBounds, f),
        },
        Instruction::Tax => StepResult::Next(
            MachineState { x: s.a, p: zn_update(s.p, s.a), ..s },
        ),
        Instruction::Tay => StepResult::Next(
            MachineState { y: s.a, p: zn_update(s.p, s.a), ..s },
        ),
        Instruction::Txa => StepResult::Next(
            MachineState { a: s.x, p: zn_update(s.p, s.x), ..s },
        ),
        Instruction::Tya => StepResult::Next(
            MachineState { a: s.y, p: zn_update(s.p, s.y), ..s },
        ),
        Instruction::Txs => StepResult::Next(
            MachineState { sp: (0x0100 + s.x) as u16, ..s },
        ),
        Instruction::Tsx => StepResult::Next(
            MachineState {
                x: (s.sp % 256) as u8,
                p: zn_update(s.p, (s.sp % 256) as u8),
                ..s
            },
        ),
        Instruction::Jsr => match sfetch_word(s) {
            Ok((target, s1)) => {
                let ret = (s1.pc - 1) as u16;
                match spush(s1, (ret / 256) as u8) {
                    Ok(s2) => match spush(s2, (ret % 256) as u8) {
                        Ok(s3) => StepResult::Next(MachineState { pc: target, ..s3 }),
                        Err(f) => StepResult::Fatal(ErrorKind::OutOfBounds, f),
                    },
                    Err(f) => StepResult::Fatal(ErrorKind::OutOfBounds, f),
                }
            },
            Err(f) => StepResult::Fatal(ErrorKind::OutOfBounds, f),
        },
        Instruction::Rts => match spop(s) {
            Ok((lo, s1)) => match spop(s1) {
                Ok((hi, s2)) => {
                    let ret = hi * 256 + lo;
                    if ret == 0xFFFF {
                        StepResult::Fatal(ErrorKind::OutOfBounds, s2)
                    } else {
                        StepResult::Next(MachineState { pc: (ret + 1) as u16, ..s2 })
                    }
                },
                Err(f) => StepResult::Fatal(ErrorKind::OutOfBounds, f),
            },
            Err(f) => StepResult::Fatal(ErrorKind::OutOfBounds, f),
        },
        Instruction::Nop => StepResult::Halted(s),
    }
}

/// One transition of the fetch-decode-execute loop: fetch the opcode byte,
/// advance the counter, decode, and apply the instruction's semantics.
pub open spec fn step_spec(s: MachineState) -> StepResult {
    match sfetch_byte(s) {
        Err(f) => StepResult::Fatal(ErrorKind::OutOfBounds, f),
        Ok((op, s1)) => match sdecode(op) {
            None => StepResult::Fatal(ErrorKind::UnknownOpcode, s1),
            Some(i) => instr_spec(s1, i),
        },
    }
}

/// The machine after at most `n` transitions from `s`: `Next` while it is
/// still running, or the halt or fatal outcome it reached on the way.
pub open spec fn run_n(s: MachineState, n: nat) -> StepResult
    decreases n,
{
    if n == 0 {
        StepResult::Next(s)
    } else {
        match step_spec(s) {
            StepResult::Next(t) => run_n(t, (n - 1) as nat),
            r => r,
        }
    }
}

/// Extends a run by one transition: a machine still running after `n`
/// transitions moves, after `n + 1`, to wherever one more step takes it.
pub proof fn lemma_run_n_snoc(s0: MachineState, n: nat, s: MachineState)
    requires
        run_n(s0, n) == StepResult::Next(s),
    ensures
        run_n(s0, n + 1) == (match step_spec(s) {
            StepResult::Next(t) => StepResult::Next(t),
            r => r,
        }),
    decreases n,
{
    if n == 0 {
        assert(s0 == s);
        assert(run_n(s0, 1) == (match step_spec(s0) {
            StepResult::Next(t) => run_n(t, 0),
            r => r,
        }));
        match step_spec(s0) {
            StepResult::Next(t) => {
                assert(run_n(t, 0) == StepResult::Next(t));
            },
            _ => {},
        }
    } else {
        assert(run_n(s0, n) == (match step_spec(s0) {
            StepResult::Next(t) => run_n(t, (n - 1) as nat),
            r => r,
        }));
        match step_spec(s0) {
            StepResult::Next(t0) => {
                lemma_run_n_snoc(t0, (n - 1) as nat, s);
                assert(run_n(s0, n + 1) == (match step_spec(s0) {
                    StepResult::Next(t) => run_n(t, n),
                    r => r,
                }));
            },
            _ => {},
        }
    }
}

/// A halt or fatal outcome is stable: once reached after `n` transitions,
/// every longer run reaches the same outcome.
pub proof fn lemma_run_n_stable(s0: MachineState, n: nat, m: nat)
    requires
        n <= m,
        !(run_n(s0, n) is Next),
    ensures
        run_n(s0, m) == run_n(s0, n),
    decreases n,
{
    if n == 0 {
        // run_n(s0, 0) is Next, contradicting the premise
        assert(false);
    } else {
        match step_spec(s0) {
            StepResult::Next(t0) => {
                lemma_run_n_stable(t0, (n - 1) as nat, (m - 1) as nat);
            },
            _ => {},
        }
    }
}

} // verus!
