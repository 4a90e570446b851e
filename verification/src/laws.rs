//! The architectural guarantees of this core, stated once and proved for
//! all machine states: the flag convention of the load instructions, the
//! zero-page wrap-around rules, the right-shift flag behaviour, and the
//! stack and subroutine round trips.

use vstd::prelude::*;
use crate::machine::{
    instr_spec, lsr_update, sread_operand, sresolve_ea, wf_state, zn_update, MachineState,
    StepResult,
};
use crate::mem::word_at;
use crate::op_codes::{AddrMode, Instruction};
use crate::proc_stat::{
    flag_get, FLAG_B, FLAG_C, FLAG_D, FLAG_I, FLAG_N, FLAG_V, FLAG_Z,
};

verus! {

/// The state a transition moves to, for a transition known to produce one.
pub open spec fn next_state(sr: StepResult) -> MachineState {
    match sr {
        StepResult::Next(t) => t,
        StepResult::Halted(t) => t,
        StepResult::Fatal(_, t) => t,
    }
}

/// The register a load instruction loads, read from the state after it.
pub open spec fn loaded_value(i: Instruction, t: MachineState) -> u8 {
    match i {
        Instruction::Lda(_) => t.a,
        Instruction::Ldx(_) => t.x,
        Instruction::Ldy(_) => t.y,
        _ => 0,
    }
}

/// Updating Z and N from a result byte sets Z exactly on zero, sets N
/// exactly on bit 7, and leaves every other flag as it was.
pub proof fn lemma_zn_update(p: u8, v: u8)
    ensures
        flag_get(zn_update(p, v), FLAG_Z) <==> v == 0,
        flag_get(zn_update(p, v), FLAG_N) <==> v & 0x80 != 0,
        flag_get(zn_update(p, v), FLAG_C) == flag_get(p, FLAG_C),
        flag_get(zn_update(p, v), FLAG_V) == flag_get(p, FLAG_V),
        flag_get(zn_update(p, v), FLAG_B) == flag_get(p, FLAG_B),
        flag_get(zn_update(p, v), FLAG_D) == flag_get(p, FLAG_D),
        flag_get(zn_update(p, v), FLAG_I) == flag_get(p, FLAG_I),
{
    assert(flag_get(zn_update(p, v), FLAG_Z) <==> v == 0) by (bit_vector);
    assert(flag_get(zn_update(p, v), FLAG_N) <==> v & 0x80 != 0) by (bit_vector);
    assert(flag_get(zn_update(p, v), FLAG_C) == flag_get(p, FLAG_C)) by (bit_vector);
    assert(flag_get(zn_update(p, v), FLAG_V) == flag_get(p, FLAG_V)) by (bit_vector);
    assert(flag_get(zn_update(p, v), FLAG_B) == flag_get(p, FLAG_B)) by (bit_vector);
    assert(flag_get(zn_update(p, v), FLAG_D) == flag_get(p, FLAG_D)) by (bit_vector);
    assert(flag_get(zn_update(p, v), FLAG_I) == flag_get(p, FLAG_I)) by (bit_vector);
}

/// Updating the flags after a right shift of the operand byte `v` takes the
/// carry from bit 0 of `v`, sets Z exactly when the shifted result is zero,
/// always clears N, and leaves every other flag as it was.
pub proof fn lemma_lsr_update(p: u8, v: u8)
    ensures
        flag_get(lsr_update(p, v), FLAG_C) <==> v & 0x01 != 0,
        flag_get(lsr_update(p, v), FLAG_Z) <==> v >> 1u8 == 0,
        !flag_get(lsr_update(p, v), FLAG_N),
        flag_get(lsr_update(p, v), FLAG_V) == flag_get(p, FLAG_V),
        flag_get(lsr_update(p, v), FLAG_B) == flag_get(p, FLAG_B),
        flag_get(lsr_update(p, v), FLAG_D) == flag_get(p, FLAG_D),
        flag_get(lsr_update(p, v), FLAG_I) == flag_get(p, FLAG_I),
{
    assert(flag_get(lsr_update(p, v), FLAG_C) <==> v & 0x01 != 0) by (bit_vector);
    assert(flag_get(lsr_update(p, v), FLAG_Z) <==> v >> 1u8 == 0) by (bit_vector);
    assert(!flag_get(lsr_update(p, v), FLAG_N)) by (bit_vector);
    assert(flag_get(lsr_update(p, v), FLAG_V) == flag_get(p, FLAG_V)) by (bit_vector);
    assert(flag_get(lsr_update(p, v), FLAG_B) == flag_get(p, FLAG_B)) by (bit_vector);
    assert(flag_get(lsr_update(p, v), FLAG_D) == flag_get(p, FLAG_D)) by (bit_vector);
    assert(flag_get(lsr_update(p, v), FLAG_I) == flag_get(p, FLAG_I)) by (bit_vector);
}

/// Resolving an operand leaves every register, the flags and the memory
/// untouched; only the program counter moves.
proof fn lemma_read_operand_frame(s: MachineState, m: AddrMode)
    ensures
        (match sread_operand(s, m) {
            Ok((v, s1)) => s1.p == s.p && s1.a == s.a && s1.x == s.x && s1.y == s.y && s1.sp
                == s.sp && s1.mem == s.mem,
            Err(_) => true,
        }),
{
}

/// For every load instruction and every supported addressing mode: loading
/// zero sets Z and clears N; loading a value with bit 7 set clears Z and
/// sets N; loading a nonzero value with bit 7 clear clears both.  Every
/// other flag keeps its value.
pub proof fn lemma_load_sets_zero_and_negative(s: MachineState, i: Instruction, t: MachineState)
    requires
        i is Lda || i is Ldx || i is Ldy,
        instr_spec(s, i) == StepResult::Next(t),
    ensures
        flag_get(t.p, FLAG_Z) <==> loaded_value(i, t) == 0,
        flag_get(t.p, FLAG_N) <==> loaded_value(i, t) & 0x80 != 0,
        flag_get(t.p, FLAG_C) == flag_get(s.p, FLAG_C),
        flag_get(t.p, FLAG_V) == flag_get(s.p, FLAG_V),
        flag_get(t.p, FLAG_B) == flag_get(s.p, FLAG_B),
        flag_get(t.p, FLAG_D) == flag_get(s.p, FLAG_D),
        flag_get(t.p, FLAG_I) == flag_get(s.p, FLAG_I),
{
    match i {
        Instruction::Lda(m) => {
            lemma_read_operand_frame(s, m);
            match sread_operand(s, m) {
                Ok((v, s1)) => {
                    lemma_zn_update(s1.p, v);
                },
                Err(_) => {},
            }
        },
        Instruction::Ldx(m) => {
            lemma_read_operand_frame(s, m);
            match sread_operand(s, m) {
                Ok((v, s1)) => {
                    lemma_zn_update(s1.p, v);
                },
                Err(_) => {},
            }
        },
        Instruction::Ldy(m) => {
            lemma_read_operand_frame(s, m);
            match sread_operand(s, m) {
                Ok((v, s1)) => {
                    lemma_zn_update(s1.p, v);
                },
                Err(_) => {},
            }
        },
        _ => {},
    }
}

/// Zero-page indexed addressing wraps modulo 256: the resolved address is
/// (operand byte + index register) mod 256, and in particular stays inside
/// the zero page.
pub proof fn lemma_zero_page_indexed_wraps(
    s: MachineState,
    m: AddrMode,
    ea: u16,
    t: MachineState,
)
    requires
        m == AddrMode::ZeroPageX || m == AddrMode::ZeroPageY,
        sresolve_ea(s, m) == Ok::<(u16, MachineState), MachineState>((ea, t)),
    ensures
        ea < 256,
        m == AddrMode::ZeroPageX ==> ea == (s.mem[s.pc as int] + s.x) % 256,
        m == AddrMode::ZeroPageY ==> ea == (s.mem[s.pc as int] + s.y) % 256,
{
}

/// Indexed-indirect addressing wraps its pointer arithmetic within the
/// zero page before the indirection lookup: the pointer is (operand byte
/// + X) mod 256, and the effective address is the word stored there.
pub proof fn lemma_indexed_indirect_wraps(s: MachineState, ea: u16, t: MachineState)
    requires
        sresolve_ea(s, AddrMode::IndexedIndirect) == Ok::<(u16, MachineState), MachineState>(
            (ea, t),
        ),
    ensures
        (s.mem[s.pc as int] + s.x) % 256 < 256,
        ea == word_at(s.mem, (s.mem[s.pc as int] + s.x) % 256),
{
}

/// Push-then-pop round trip for the accumulator: after a push of the
/// accumulator succeeds, an immediate pop succeeds too, restores the pushed
/// value, and leaves the stack pointer equal to its pre-push value.
pub proof fn lemma_push_pop_roundtrip(s: MachineState, t1: MachineState)
    requires
        wf_state(s),
        instr_spec(s, Instruction::Pha) == StepResult::Next(t1),
    ensures
        instr_spec(t1, Instruction::Pla) is Next,
        next_state(instr_spec(t1, Instruction::Pla)).a == s.a,
        next_state(instr_spec(t1, Instruction::Pla)).sp == s.sp,
{
}

/// Push-then-pop round trip for the status register: after a push of the
/// status byte succeeds, an immediate pop succeeds too, restores the whole
/// flag set, and leaves the stack pointer equal to its pre-push value.
pub proof fn lemma_push_pop_status_roundtrip(s: MachineState, t1: MachineState)
    requires
        wf_state(s),
        instr_spec(s, Instruction::Php) == StepResult::Next(t1),
    ensures
        instr_spec(t1, Instruction::Plp) is Next,
        next_state(instr_spec(t1, Instruction::Plp)).p == s.p,
        next_state(instr_spec(t1, Instruction::Plp)).sp == s.sp,
{
}

/// Call/return round trip: after a subroutine call succeeds, an immediate
/// return succeeds too, leaves the program counter at the address right
/// after the call's full three-byte encoding (the counter held the first
/// operand byte when the call's semantics began), restores the stack
/// pointer to its pre-call value, and leaves the flags untouched.
pub proof fn lemma_call_return_roundtrip(s: MachineState, t1: MachineState)
    requires
        wf_state(s),
        instr_spec(s, Instruction::Jsr) == StepResult::Next(t1),
    ensures
        instr_spec(t1, Instruction::Rts) is Next,
        next_state(instr_spec(t1, Instruction::Rts)).pc == s.pc + 2,
        next_state(instr_spec(t1, Instruction::Rts)).sp == s.sp,
        next_state(instr_spec(t1, Instruction::Rts)).p == s.p,
{
}

} // verus!
