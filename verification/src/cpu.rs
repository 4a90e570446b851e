//! The execution engine: registers, flags and memory in one owned
//! aggregate, driven by a fetch-decode-execute loop that is proved to
//! follow the transition function [`crate::machine::step_spec`].

use vstd::prelude::*;
use crate::errors::{EmuError, ErrorKind, Snapshot};
use crate::machine::{
    instr_spec, lemma_run_n_snoc, lemma_run_n_stable, run_n, sfetch_byte, sfetch_word, spop,
    spush, sread_operand, sresolve_ea, step_spec, zn_update, MachineState, StepResult,
};
use crate::mem::{Memory, MAX_MEM};
use crate::op_codes::{decode, AddrMode, Instruction};
use crate::proc_stat::{flag_set, ProcStat, FLAG_C, FLAG_N, FLAG_Z};

verus! {

/// The outcome of one successful [`Cpu::step`]: the machine either took one
/// instruction and keeps running, or executed the halt opcode.
#[derive(Clone, Copy, Debug, PartialEq, Eq, Structural)]
pub enum StepOutcome {
    Stepped,
    Halted,
}

/// The outcome of a successful [`Cpu::execute`]: the machine halted
/// cleanly, or the step budget ran out while it was still running.
#[derive(Clone, Copy, Debug, PartialEq, Eq, Structural)]
pub enum RunOutcome {
    Halted,
    StepLimitReached,
}

/// How an instruction-level result relates the machine to the semantics in
/// [`instr_spec`]: the post state and the returned value are exactly what
/// the transition prescribes.
pub open spec fn instr_matches(
    sr: StepResult,
    r: Result<(), ErrorKind>,
    post: MachineState,
) -> bool {
    match sr {
        StepResult::Next(t) => r == Ok::<(), ErrorKind>(()) && post == t,
        StepResult::Halted(t) => r == Ok::<(), ErrorKind>(()) && post == t,
        StepResult::Fatal(k, f) => r == Err::<(), ErrorKind>(k) && post == f,
    }
}

/// How a step-level result relates the machine to the semantics in
/// [`step_spec`], including the snapshot a fatal error carries.
pub open spec fn step_result_matches(
    sr: StepResult,
    r: Result<StepOutcome, EmuError>,
    post: MachineState,
) -> bool {
    match sr {
        StepResult::Next(t) => r == Ok::<StepOutcome, EmuError>(StepOutcome::Stepped) && post
            == t,
        StepResult::Halted(t) => r == Ok::<StepOutcome, EmuError>(StepOutcome::Halted) && post
            == t,
        StepResult::Fatal(k, f) => post == f && (match r {
            Err(e) => e.kind == k && e.snapshot.records(f.pc, f.sp, f.a, f.x, f.y, f.p),
            Ok(_) => false,
        }),
    }
}

/// The execution engine: program counter, stack pointer, accumulator, the
/// two index registers, the status register, and the memory it owns.
#[derive(Debug)]
pub struct Cpu {
    /// program counter
    pub pc: u16,
    /// stack pointer, used as a direct memory address for push/pop
    pub sp: u16,
    /// accumulator
    pub a: u8,
    /// x index register
    pub x: u8,
    /// y index register
    pub y: u8,
    /// processor status
    pub p: ProcStat,
    /// memory module
    pub mem: Memory,
}

impl View for Cpu {
    type V = MachineState;

    open spec fn view(&self) -> MachineState {
        MachineState {
            pc: self.pc,
            sp: self.sp,
            a: self.a,
            x: self.x,
            y: self.y,
            p: self.p@,
            mem: self.mem@,
        }
    }
}

impl Cpu {
    /// Well-formed: the owned memory holds exactly `MAX_MEM` bytes.
    pub open spec fn wf(&self) -> bool {
        self.mem.wf()
    }

    /// A new engine: every register zero, every flag clear, memory zeroed.
    pub fn new() -> (r: Cpu)
        ensures
            r.wf(),
            r@.pc == 0 && r@.sp == 0 && r@.a == 0 && r@.x == 0 && r@.y == 0 && r@.p == 0,
            forall|i: int| 0 <= i < MAX_MEM ==> r@.mem[i] == 0u8,
    {
        Cpu {
            pc: 0,
            sp: 0,
            a: 0,
            x: 0,
            y: 0,
            p: ProcStat::new(),
            mem: Memory::new(),
        }
    }

    /// Full register and flag state for a diagnostics sink to render.
    pub fn snapshot(&self) -> (r: Snapshot)
        ensures
            r.records(self.pc, self.sp, self.a, self.x, self.y, self.p@),
    {
        Snapshot {
            pc: self.pc,
            sp: self.sp,
            a: self.a,
            x: self.x,
            y: self.y,
            p: self.p.bits(),
            flags: self.p.to_display(),
        }
    }

    /// A fatal error of the given kind carrying the current machine state.
    fn make_error(&self, kind: ErrorKind) -> (e: EmuError)
        ensures
            e.kind == kind,
            e.snapshot.records(self.pc, self.sp, self.a, self.x, self.y, self.p@),
    {
        EmuError { kind, snapshot: self.snapshot() }
    }

    /// Fetches the byte at the program counter and advances the counter;
    /// fails, changing nothing, when the counter cannot advance.
    fn fetch_byte(&mut self) -> (r: Result<u8, ErrorKind>)
        requires
            old(self).wf(),
        ensures
            final(self).wf(),
            (match sfetch_byte(old(self)@) {
                Ok((b, s1)) => r == Ok::<u8, ErrorKind>(b) && final(self)@ == s1,
                Err(f) => r == Err::<u8, ErrorKind>(ErrorKind::OutOfBounds) && final(self)@
                    == f,
            }),
    {
        if self.pc == 0xFFFF {
            return Err(ErrorKind::OutOfBounds);
        }
        let b = self.mem.get(self.pc);
        self.pc = self.pc + 1;
        Ok(b)
    }

    /// Fetches the little-endian word at the program counter and advances
    /// the counter by two; fails, changing nothing, when the counter cannot
    /// advance past both bytes.
    fn fetch_word(&mut self) -> (r: Result<u16, ErrorKind>)
        requires
            old(self).wf(),
        ensures
            final(self).wf(),
            (match sfetch_word(old(self)@) {
                Ok((w, s1)) => r == Ok::<u16, ErrorKind>(w) && final(self)@ == s1,
                Err(f) => r == Err::<u16, ErrorKind>(ErrorKind::OutOfBounds) && final(self)@
                    == f,
            }),
    {
        if self.pc >= 0xFFFE {
            return Err(ErrorKind::OutOfBounds);
        }
        let lo = self.mem.get(self.pc);
        let hi = self.mem.get(self.pc + 1);
        self.pc = self.pc + 2;
        Ok(lo as u16 + 256 * hi as u16)
    }

    /// Writes a byte at the stack pointer's address, then decrements the
    /// pointer; fails, changing nothing, when it cannot decrement.
    fn push_byte(&mut self, b: u8) -> (r: Result<(), ErrorKind>)
        requires
            old(self).wf(),
        ensures
            final(self).wf(),
            (match spush(old(self)@, b) {
                Ok(s1) => r == Ok::<(), ErrorKind>(()) && final(self)@ == s1,
                Err(f) => r == Err::<(), ErrorKind>(ErrorKind::OutOfBounds) && final(self)@
                    == f,
            }),
    {
        if self.sp == 0 {
            return Err(ErrorKind::OutOfBounds);
        }
        self.mem.put(self.sp, b);
        self.sp = self.sp - 1;
        Ok(())
    }

    /// Increments the stack pointer, then reads the byte at its new
    /// address; fails, changing nothing, when it cannot increment.
    fn pop_byte(&mut self) -> (r: Result<u8, ErrorKind>)
        requires
            old(self).wf(),
        ensures
            final(self).wf(),
            (match spop(old(self)@) {
                Ok((b, s1)) => r == Ok::<u8, ErrorKind>(b) && final(self)@ == s1,
                Err(f) => r == Err::<u8, ErrorKind>(ErrorKind::OutOfBounds) && final(self)@
                    == f,
            }),
    {
        if self.sp == 0xFFFF {
            return Err(ErrorKind::OutOfBounds);
        }
        self.sp = self.sp + 1;
        Ok(self.mem.get(self.sp))
    }

    /// Resolves the effective address of a non-immediate addressing mode,
    /// fetching the operand bytes; the fatal case leaves the machine in the
    /// state at the fault.
    fn resolve_ea(&mut self, m: AddrMode) -> (r: Result<u16, ErrorKind>)
        requires
            old(self).wf(),
        ensures
            final(self).wf(),
            (match sresolve_ea(old(self)@, m) {
                Ok((ea, s1)) => r == Ok::<u16, ErrorKind>(ea) && final(self)@ == s1,
                Err(f) => r == Err::<u16, ErrorKind>(ErrorKind::OutOfBounds) && final(self)@
                    == f,
            }),
    {
        match m {
            AddrMode::Immediate => Err(ErrorKind::OutOfBounds),
            AddrMode::ZeroPage => {
                let b = match self.fetch_byte() {
                    Ok(b) => b,
                    Err(k) => {
                        return Err(k);
                    },
                };
                Ok(b as u16)
            },
            AddrMode::ZeroPageX => {
                let x = self.x;
                let b = match self.fetch_byte() {
                    Ok(b) => b,
                    Err(k) => {
                        return Err(k);
                    },
                };
                Ok((b as u16 + x as u16) % 256)
            },
            AddrMode::ZeroPageY => {
                let y = self.y;
                let b = match self.fetch_byte() {
                    Ok(b) => b,
                    Err(k) => {
                        return Err(k);
                    },
                };
                Ok((b as u16 + y as u16) % 256)
            },
            AddrMode::Absolute => self.fetch_word(),
            AddrMode::AbsoluteX => {
                let x = self.x;
                let w = match self.fetch_word() {
                    Ok(w) => w,
                    Err(k) => {
                        return Err(k);
                    },
                };
                let sum = w as u32 + x as u32;
                if sum > 0xFFFF {
                    Err(ErrorKind::OutOfBounds)
                } else {
                    Ok(sum as u16)
                }
            },
            AddrMode::AbsoluteY => {
                let y = self.y;
                let w = match self.fetch_word() {
                    Ok(w) => w,
                    Err(k) => {
                        return Err(k);
                    },
                };
                let sum = w as u32 + y as u32;
                if sum > 0xFFFF {
                    Err(ErrorKind::OutOfBounds)
                } else {
                    Ok(sum as u16)
                }
            },
            AddrMode::IndexedIndirect => {
                let x = self.x;
                let b = match self.fetch_byte() {
                    Ok(b) => b,
                    Err(k) => {
                        return Err(k);
                    },
                };
                let ptr = (b as u16 + x as u16) % 256;
                let lo = self.mem.get(ptr);
                let hi = self.mem.get(ptr + 1);
                Ok(lo as u16 + 256 * hi as u16)
            },
            AddrMode::IndirectIndexed => {
                let y = self.y;
                let b = match self.fetch_byte() {
                    Ok(b) => b,
                    Err(k) => {
                        return Err(k);
                    },
                };
                let lo = self.mem.get(b as u16);
                let hi = self.mem.get(b as u16 + 1);
                let base = lo as u16 + 256 * hi as u16;
                let sum = base as u32 + y as u32;
                if sum > 0xFFFF {
                    Err(ErrorKind::OutOfBounds)
                } else {
                    Ok(sum as u16)
                }
            },
        }
    }

    /// Reads the operand byte of an instruction under the given addressing
    /// mode: the fetched byte itself for the immediate mode, the byte at
    /// the effective address otherwise.
    fn read_operand(&mut self, m: AddrMode) -> (r: Result<u8, ErrorKind>)
        requires
            old(self).wf(),
        ensures
            final(self).wf(),
            (match sread_operand(old(self)@, m) {
                Ok((v, s1)) => r == Ok::<u8, ErrorKind>(v) && final(self)@ == s1,
                Err(f) => r == Err::<u8, ErrorKind>(ErrorKind::OutOfBounds) && final(self)@
                    == f,
            }),
    {
        match m {
            AddrMode::Immediate => self.fetch_byte(),
            _ => {
                let ea = match self.resolve_ea(m) {
                    Ok(ea) => ea,
                    Err(k) => {
                        return Err(k);
                    },
                };
                Ok(self.mem.get(ea))
            },
        }
    }

    /// Sets the zero and negative flags from a result byte: Z iff the byte
    /// is zero, N iff its bit 7 is set.  All other flags keep their value.
    fn set_flags(&mut self, value: u8)
        ensures
            final(self)@ == (MachineState { p: zn_update(old(self)@.p, value), ..old(self)@ }),
            final(self).wf() == old(self).wf(),
    {
        self.p.set_flag(FLAG_Z, value == 0);
        self.p.set_flag(FLAG_N, value & 0x80 != 0);
    }

    /// Sets or clears the carry flag.  All other flags keep their value.
    fn set_carry_flag(&mut self, carry: bool)
        ensures
            final(self)@ == (MachineState {
                p: flag_set(old(self)@.p, FLAG_C, carry),
                ..old(self)@
            }),
            final(self).wf() == old(self).wf(),
    {
        self.p.set_flag(FLAG_C, carry);
    }

    /// Load accumulator: the operand byte under the given addressing mode
    /// goes into the accumulator, which sets Z and N.
    pub fn lda(&mut self, m: AddrMode) -> (r: Result<(), ErrorKind>)
        requires
            old(self).wf(),
        ensures
            final(self).wf(),
            instr_matches(instr_spec(old(self)@, Instruction::Lda(m)), r, final(self)@),
    {
        let v = match self.read_operand(m) {
            Ok(v) => v,
            Err(k) => {
                return Err(k);
            },
        };
        self.a = v;
        self.set_flags(v);
        Ok(())
    }

    /// Load index X: the operand byte goes into X, which sets Z and N.
    pub fn ldx(&mut self, m: AddrMode) -> (r: Result<(), ErrorKind>)
        requires
            old(self).wf(),
        ensures
            final(self).wf(),
            instr_matches(instr_spec(old(self)@, Instruction::Ldx(m)), r, final(self)@),
    {
        let v = match self.read_operand(m) {
            Ok(v) => v,
            Err(k) => {
                return Err(k);
            },
        };
        self.x = v;
        self.set_flags(v);
        Ok(())
    }

    /// Load index Y: the operand byte goes into Y, which sets Z and N.
    pub fn ldy(&mut self, m: AddrMode) -> (r: Result<(), ErrorKind>)
        requires
            old(self).wf(),
        ensures
            final(self).wf(),
            instr_matches(instr_spec(old(self)@, Instruction::Ldy(m)), r, final(self)@),
    {
        let v = match self.read_operand(m) {
            Ok(v) => v,
            Err(k) => {
                return Err(k);
            },
        };
        self.y = v;
        self.set_flags(v);
        Ok(())
    }

    /// Or: the accumulator becomes `a | operand`, which sets Z and N.
    pub fn ora(&mut self, m: AddrMode) -> (r: Result<(), ErrorKind>)
        requires
            old(self).wf(),
        ensures
            final(self).wf(),
            instr_matches(instr_spec(old(self)@, Instruction::Ora(m)), r, final(self)@),
    {
        let v = match self.read_operand(m) {
            Ok(v) => v,
            Err(k) => {
                return Err(k);
            },
        };
        let res = self.a | v;
        self.a = res;
        self.set_flags(res);
        Ok(())
    }

    /// And: the accumulator becomes `a & operand`, which sets Z and N.
    pub fn anda(&mut self, m: AddrMode) -> (r: Result<(), ErrorKind>)
        requires
            old(self).wf(),
        ensures
            final(self).wf(),
            instr_matches(instr_spec(old(self)@, Instruction::Anda(m)), r, final(self)@),
    {
        let v = match self.read_operand(m) {
            Ok(v) => v,
            Err(k) => {
                return Err(k);
            },
        };
        let res = self.a & v;
        self.a = res;
        self.set_flags(res);
        Ok(())
    }

    /// Exclusive-or: the accumulator becomes `a ^ operand`, which sets Z
    /// and N.
    pub fn eor(&mut self, m: AddrMode) -> (r: Result<(), ErrorKind>)
        requires
            old(self).wf(),
        ensures
            final(self).wf(),
            instr_matches(instr_spec(old(self)@, Instruction::Eor(m)), r, final(self)@),
    {
        let v = match self.read_operand(m) {
            Ok(v) => v,
            Err(k) => {
                return Err(k);
            },
        };
        let res = self.a ^ v;
        self.a = res;
        self.set_flags(res);
        Ok(())
    }

    /// Logical shift right of the accumulator: carry takes its old bit 0,
    /// Z reflects the shifted result, N is always cleared.
    pub fn lsr_acc(&mut self) -> (r: Result<(), ErrorKind>)
        requires
            old(self).wf(),
        ensures
            final(self).wf(),
            instr_matches(instr_spec(old(self)@, Instruction::LsrAcc), r, final(self)@),
    {
        let v = self.a;
        self.a = v >> 1u8;
        self.set_carry_flag(v & 0x01 != 0);
        self.p.set_flag(FLAG_Z, v >> 1u8 == 0);
        self.p.set_flag(FLAG_N, false);
        Ok(())
    }

    /// Logical shift right of a memory operand: the byte at the effective
    /// address is shifted in place; carry takes its old bit 0, Z reflects
    /// the shifted result, N is always cleared.
    pub fn lsr_mem(&mut self, m: AddrMode) -> (r: Result<(), ErrorKind>)
        requires
            old(self).wf(),
        ensures
            final(self).wf(),
            instr_matches(instr_spec(old(self)@, Instruction::LsrMem(m)), r, final(self)@),
    {
        let ea = match self.resolve_ea(m) {
            Ok(ea) => ea,
            Err(k) => {
                return Err(k);
            },
        };
        let v = self.mem.get(ea);
        self.mem.put(ea, v >> 1u8);
        self.set_carry_flag(v & 0x01 != 0);
        self.p.set_flag(FLAG_Z, v >> 1u8 == 0);
        self.p.set_flag(FLAG_N, false);
        Ok(())
    }

    /// Push accumulator onto the stack.  Flags keep their value.
    pub fn pha(&mut self) -> (r: Result<(), ErrorKind>)
        requires
            old(self).wf(),
        ensures
            final(self).wf(),
            instr_matches(instr_spec(old(self)@, Instruction::Pha), r, final(self)@),
    {
        let a = self.a;
        self.push_byte(a)
    }

    /// Push the processor status byte onto the stack.  Flags keep their
    /// value.
    pub fn php(&mut self) -> (r: Result<(), ErrorKind>)
        requires
            old(self).wf(),
        ensures
            final(self).wf(),
            instr_matches(instr_spec(old(self)@, Instruction::Php), r, final(self)@),
    {
        let b = self.p.bits();
        self.push_byte(b)
    }

    /// Pop the accumulator from the stack, which sets Z and N from the
    /// popped byte.
    pub fn pla(&mut self) -> (r: Result<(), ErrorKind>)
        requires
            old(self).wf(),
        ensures
            final(self).wf(),
            instr_matches(instr_spec(old(self)@, Instruction::Pla), r, final(self)@),
    {
        let v = match self.pop_byte() {
            Ok(v) => v,
            Err(k) => {
                return Err(k);
            },
        };
        self.a = v;
        self.set_flags(v);
        Ok(())
    }

    /// Pop the processor status from the stack: the popped byte overwrites
    /// the entire flag set, with no individual-flag semantics.
    pub fn plp(&mut self) -> (r: Result<(), ErrorKind>)
        requires
            old(self).wf(),
        ensures
            final(self).wf(),
            instr_matches(instr_spec(old(self)@, Instruction::Plp), r, final(self)@),
    {
        let v = match self.pop_byte() {
            Ok(v) => v,
            Err(k) => {
                return Err(k);
            },
        };
        self.p = ProcStat::from_bits(v);
        Ok(())
    }

    /// Transfer accumulator to X, which sets Z and N.
    pub fn tax(&mut self) -> (r: Result<(), ErrorKind>)
        requires
            old(self).wf(),
        ensures
            final(self).wf(),
            instr_matches(instr_spec(old(self)@, Instruction::Tax), r, final(self)@),
    {
        let v = self.a;
        self.x = v;
        self.set_flags(v);
        Ok(())
    }

    /// Transfer accumulator to Y, which sets Z and N.
    pub fn tay(&mut self) -> (r: Result<(), ErrorKind>)
        requires
            old(self).wf(),
        ensures
            final(self).wf(),
            instr_matches(instr_spec(old(self)@, Instruction::Tay), r, final(self)@),
    {
        let v = self.a;
        self.y = v;
        self.set_flags(v);
        Ok(())
    }

    /// Transfer X to the accumulator, which sets Z and N.
    pub fn txa(&mut self) -> (r: Result<(), ErrorKind>)
        requires
            old(self).wf(),
        ensures
            final(self).wf(),
            instr_matches(instr_spec(old(self)@, Instruction::Txa), r, final(self)@),
    {
        let v = self.x;
        self.a = v;
        self.set_flags(v);
        Ok(())
    }

    /// Transfer Y to the accumulator, which sets Z and N.
    pub fn tya(&mut self) -> (r: Result<(), ErrorKind>)
        requires
            old(self).wf(),
        ensures
            final(self).wf(),
            instr_matches(instr_spec(old(self)@, Instruction::Tya), r, final(self)@),
    {
        let v = self.y;
        self.a = v;
        self.set_flags(v);
        Ok(())
    }

    /// Transfer X to the stack pointer, which lands in the stack page
    /// (0x0100 + X).  This transfer never touches the flags.
    pub fn txs(&mut self) -> (r: Result<(), ErrorKind>)
        requires
            old(self).wf(),
        ensures
            final(self).wf(),
            instr_matches(instr_spec(old(self)@, Instruction::Txs), r, final(self)@),
    {
        self.sp = 0x0100 + self.x as u16;
        Ok(())
    }

    /// Transfer the stack pointer's low byte to X, which sets Z and N.
    pub fn tsx(&mut self) -> (r: Result<(), ErrorKind>)
        requires
            old(self).wf(),
        ensures
            final(self).wf(),
            instr_matches(instr_spec(old(self)@, Instruction::Tsx), r, final(self)@),
    {
        let v = (self.sp % 256) as u8;
        self.x = v;
        self.set_flags(v);
        Ok(())
    }

    /// Jump to subroutine: fetch the absolute target, push the return
    /// address (the counter after the operand word, minus one) high byte
    /// first, and jump.  Flags keep their value.
    pub fn jsr(&mut self) -> (r: Result<(), ErrorKind>)
        requires
            old(self).wf(),
        ensures
            final(self).wf(),
            instr_matches(instr_spec(old(self)@, Instruction::Jsr), r, final(self)@),
    {
        let target = match self.fetch_word() {
            Ok(w) => w,
            Err(k) => {
                return Err(k);
            },
        };
        let ret = self.pc - 1;
        match self.push_byte((ret / 256) as u8) {
            Ok(()) => {},
            Err(k) => {
                return Err(k);
            },
        }
        match self.push_byte((ret % 256) as u8) {
            Ok(()) => {},
            Err(k) => {
                return Err(k);
            },
        }
        self.pc = target;
        Ok(())
    }

    /// Return from subroutine: pop the return address low byte first and
    /// continue at the address one past it.  Flags keep their value.
    pub fn rts(&mut self) -> (r: Result<(), ErrorKind>)
        requires
            old(self).wf(),
        ensures
            final(self).wf(),
            instr_matches(instr_spec(old(self)@, Instruction::Rts), r, final(self)@),
    {
        let lo = match self.pop_byte() {
            Ok(v) => v,
            Err(k) => {
                return Err(k);
            },
        };
        let hi = match self.pop_byte() {
            Ok(v) => v,
            Err(k) => {
                return Err(k);
            },
        };
        let ret = hi as u16 * 256 + lo as u16;
        if ret == 0xFFFF {
            return Err(ErrorKind::OutOfBounds);
        }
        self.pc = ret + 1;
        Ok(())
    }

    /// One transition of the fetch-decode-execute loop: fetch the opcode
    /// byte at the program counter, advance the counter, decode, and apply
    /// the instruction, exactly as [`step_spec`] prescribes.  A fatal error
    /// carries the machine state at the fault; the halt opcode reports
    /// [`StepOutcome::Halted`].
    pub fn step(&mut self) -> (r: Result<StepOutcome, EmuError>)
        requires
            old(self).wf(),
        ensures
            final(self).wf(),
            step_result_matches(step_spec(old(self)@), r, final(self)@),
    {
        let op = match self.fetch_byte() {
            Ok(b) => b,
            Err(k) => {
                let e = self.make_error(k);
                return Err(e);
            },
        };
        let i = match decode(op) {
            Some(i) => i,
            None => {
                let e = self.make_error(ErrorKind::UnknownOpcode);
                return Err(e);
            },
        };
        let res: Result<(), ErrorKind> = match i {
            Instruction::Lda(m) => self.lda(m),
            Instruction::Ldx(m) => self.ldx(m),
            Instruction::Ldy(m) => self.ldy(m),
            Instruction::Ora(m) => self.ora(m),
            Instruction::Anda(m) => self.anda(m),
            Instruction::Eor(m) => self.eor(m),
            Instruction::LsrAcc => self.lsr_acc(),
            Instruction::LsrMem(m) => self.lsr_mem(m),
            Instruction::Pha => self.pha(),
            Instruction::Php => self.php(),
            Instruction::Pla => self.pla(),
            Instruction::Plp => self.plp(),
            Instruction::Tax => self.tax(),
            Instruction::Tay => self.tay(),
            Instruction::Txa => self.txa(),
            Instruction::Tya => self.tya(),
            Instruction::Txs => self.txs(),
            Instruction::Tsx => self.tsx(),
            Instruction::Jsr => self.jsr(),
            Instruction::Rts => self.rts(),
            Instruction::Nop => {
                return Ok(StepOutcome::Halted);
            },
        };
        match res {
            Ok(()) => Ok(StepOutcome::Stepped),
            Err(k) => {
                let e = self.make_error(k);
                Err(e)
            },
        }
    }

    /// Drives the fetch-decode-execute loop for at most `max_steps`
    /// instructions: exactly the outcome of [`run_n`] over that many
    /// transitions.  The loop stops cleanly at the halt opcode, stops with
    /// a fatal error at an unknown opcode or an out-of-bounds access, and
    /// otherwise reports that the step budget ran out while the machine was
    /// still running.
    pub fn execute(&mut self, max_steps: u64) -> (r: Result<RunOutcome, EmuError>)
        requires
            old(self).wf(),
        ensures
            final(self).wf(),
            (match run_n(old(self)@, max_steps as nat) {
                StepResult::Next(t) => r == Ok::<RunOutcome, EmuError>(
                    RunOutcome::StepLimitReached,
                ) && final(self)@ == t,
                StepResult::Halted(t) => r == Ok::<RunOutcome, EmuError>(RunOutcome::Halted)
                    && final(self)@ == t,
                StepResult::Fatal(k, f) => final(self)@ == f && (match r {
                    Err(e) => e.kind == k && e.snapshot.records(f.pc, f.sp, f.a, f.x, f.y, f.p),
                    Ok(_) => false,
                }),
            }),
    {
        let ghost start = self@;
        let mut steps: u64 = 0;
        while steps < max_steps
            invariant
                self.wf(),
                steps <= max_steps,
                start == old(self)@,
                run_n(start, steps as nat) == StepResult::Next(self@),
            decreases max_steps - steps,
        {
            let ghost pre = self@;
            match self.step() {
                Ok(StepOutcome::Stepped) => {
                    proof {
                        lemma_run_n_snoc(start, steps as nat, pre);
                    }
                    steps = steps + 1;
                },
                Ok(StepOutcome::Halted) => {
                    proof {
                        lemma_run_n_snoc(start, steps as nat, pre);
                        lemma_run_n_stable(start, (steps + 1) as nat, max_steps as nat);
                    }
                    return Ok(RunOutcome::Halted);
                },
                Err(e) => {
                    proof {
                        lemma_run_n_snoc(start, steps as nat, pre);
                        lemma_run_n_stable(start, (steps + 1) as nat, max_steps as nat);
                    }
                    return Err(e);
                },
            }
        }
        Ok(RunOutcome::StepLimitReached)
    }

    /// Resets the machine to its defined initial state: stack pointer at
    /// the bottom of the stack page, general registers zero, flags clear,
    /// and the program counter at the reset vector 0xFFFC.  When a start
    /// address is supplied, it is written to the reset-vector location and
    /// the counter is read back through it, so the counter ends up at the
    /// supplied address; the memory is otherwise left as it was.
    pub fn reset(&mut self, address: Option<u16>)
        requires
            old(self).wf(),
        ensures
            final(self).wf(),
            (match address {
                None => final(self)@ == (MachineState {
                    pc: 0xFFFC,
                    sp: 0x0100,
                    a: 0,
                    x: 0,
                    y: 0,
                    p: 0,
                    mem: old(self)@.mem,
                }),
                Some(ad) => final(self)@ == (MachineState {
                    pc: ad,
                    sp: 0x0100,
                    a: 0,
                    x: 0,
                    y: 0,
                    p: 0,
                    mem: old(self)@.mem.update(0xFFFC, (ad % 256) as u8).update(
                        0xFFFD,
                        (ad / 256) as u8,
                    ),
                }),
            }),
    {
        self.pc = 0xFFFC;
        self.sp = 0x0100;
        self.a = 0;
        self.x = 0;
        self.y = 0;
        self.p.clear();
        if let Some(ad) = address {
            // write the start address at the reset vector, then read the
            // program counter back through it, as a hardware reset does
            match self.mem.write_word(0xFFFC, ad) {
                Ok(()) => {},
                Err(_) => {},
            }
            match self.mem.read_word(0xFFFC) {
                Ok(w) => {
                    self.pc = w;
                },
                Err(_) => {},
            }
        }
    }

    /// Copies a program image into memory starting at `address`; registers
    /// and flags keep their value.  Fails with `OutOfBounds`, changing
    /// nothing, if and only if the image does not fit below `MAX_MEM`.
    pub fn load_program(&mut self, address: usize, program: Vec<u8>) -> (r: Result<
        (),
        ErrorKind,
    >)
        requires
            old(self).wf(),
        ensures
            final(self).wf(),
            (match r {
                Ok(()) => address + program@.len() <= MAX_MEM && final(self)@ == (MachineState {
                    mem: crate::mem::with_bytes(old(self)@.mem, address as int, program@),
                    ..old(self)@
                }),
                Err(k) => address + program@.len() > MAX_MEM && k == ErrorKind::OutOfBounds
                    && final(self)@ == old(self)@,
            }),
    {
        let len = program.len();
        if len > MAX_MEM || address > MAX_MEM - len {
            return Err(ErrorKind::OutOfBounds);
        }
        let mut i: usize = 0;
        while i < len
            invariant
                self.wf(),
                i <= len,
                len == program@.len(),
                address + len <= MAX_MEM,
                self@ == (MachineState {
                    mem: crate::mem::with_bytes(
                        old(self)@.mem,
                        address as int,
                        program@.take(i as int),
                    ),
                    ..old(self)@
                }),
            decreases len - i,
        {
            let ghost before = self@.mem;
            self.mem.put((address + i) as u16, program[i]);
            proof {
                assert(before.update(address + i, program@[i as int]) =~= crate::mem::with_bytes(
                    old(self)@.mem,
                    address as int,
                    program@.take(i as int + 1),
                ));
            }
            i = i + 1;
        }
        proof {
            assert(program@.take(len as int) =~= program@);
        }
        Ok(())
    }
}

impl Default for Cpu {
    /// Same as [`Cpu::new`]: every register zero, every flag clear, memory
    /// zeroed.
    fn default() -> (r: Cpu)
        ensures
            r.wf(),
            r@.pc == 0 && r@.sp == 0 && r@.a == 0 && r@.x == 0 && r@.y == 0 && r@.p == 0,
            forall|i: int| 0 <= i < MAX_MEM ==> r@.mem[i] == 0u8,
    {
        Cpu::new()
    }
}

} // verus!
