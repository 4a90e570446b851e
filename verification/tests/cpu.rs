use emu6502::cpu::{Cpu, RunOutcome, StepOutcome};
use emu6502::errors::ErrorKind;
use emu6502::op_codes::{
    decode, AddrMode, Instruction, ANDA_IM, EORA_IM, JSR, LDA_ABS, LDA_ABSX, LDA_IM, LDA_ZP,
    LDA_ZPX, LDA_ZPXI, LDA_ZPYI, LDX_IM, LDY_IM, LSR_ACC, LSR_ZP, NOP, ORA_IM, PHA, PHP, PLA,
    PLP, RTS, TAX, TSX, TXS,
};
use emu6502::proc_stat::{FLAG_C, FLAG_N, FLAG_Z};

/// A machine reset to a defined state, with `bytes` placed at `start` and
/// the program counter pointing at them.
fn setup_cpu(start: u16, bytes: &[u8]) -> Cpu {
    let mut cpu = Cpu::new();
    cpu.reset(None);
    cpu.pc = start;
    cpu.load_program(start as usize, bytes.to_vec()).unwrap();
    cpu
}

#[test]
fn lda_immediate_zero_sets_z_clears_n() {
    let mut cpu = setup_cpu(0x0200, &[LDA_IM, 0x00, NOP]);
    assert_eq!(cpu.execute(10).unwrap(), RunOutcome::Halted);
    assert_eq!(cpu.a, 0x00);
    assert!(cpu.p.get_flag(FLAG_Z));
    assert!(!cpu.p.get_flag(FLAG_N));
}

#[test]
fn lda_immediate_bit7_sets_n_clears_z() {
    let mut cpu = setup_cpu(0x0200, &[LDA_IM, 0x80, NOP]);
    assert_eq!(cpu.execute(10).unwrap(), RunOutcome::Halted);
    assert_eq!(cpu.a, 0x80);
    assert!(!cpu.p.get_flag(FLAG_Z));
    assert!(cpu.p.get_flag(FLAG_N));
}

#[test]
fn lda_immediate_small_nonzero_clears_both() {
    let mut cpu = setup_cpu(0x0200, &[LDA_IM, 0x37, NOP]);
    assert_eq!(cpu.execute(10).unwrap(), RunOutcome::Halted);
    assert_eq!(cpu.a, 0x37);
    assert!(!cpu.p.get_flag(FLAG_Z));
    assert!(!cpu.p.get_flag(FLAG_N));
}

#[test]
fn ldx_and_ldy_update_flags_from_their_register() {
    let mut cpu = setup_cpu(0x0200, &[LDX_IM, 0x00, NOP]);
    cpu.execute(10).unwrap();
    assert_eq!(cpu.x, 0);
    assert!(cpu.p.get_flag(FLAG_Z));

    let mut cpu = setup_cpu(0x0200, &[LDY_IM, 0xFE, NOP]);
    cpu.execute(10).unwrap();
    assert_eq!(cpu.y, 0xFE);
    assert!(cpu.p.get_flag(FLAG_N));
    assert!(!cpu.p.get_flag(FLAG_Z));
}

#[test]
fn lda_zero_page_reads_low_memory() {
    let mut cpu = setup_cpu(0x0200, &[LDA_ZP, 0x42, NOP]);
    cpu.mem.write_byte(0x0042, 0x99).unwrap();
    assert_eq!(cpu.execute(10).unwrap(), RunOutcome::Halted);
    assert_eq!(cpu.a, 0x99);
    assert!(cpu.p.get_flag(FLAG_N));
}

#[test]
fn lda_absolute_updates_flags_too() {
    let mut cpu = setup_cpu(0x0200, &[LDA_ABS, 0x34, 0x12, NOP]);
    cpu.mem.write_byte(0x1234, 0x00).unwrap();
    // make Z observable: it was clear before the load
    cpu.p.set_flag(FLAG_Z, false);
    assert_eq!(cpu.execute(10).unwrap(), RunOutcome::Halted);
    assert_eq!(cpu.a, 0x00);
    assert!(cpu.p.get_flag(FLAG_Z));
    assert!(!cpu.p.get_flag(FLAG_N));
}

#[test]
fn zero_page_x_wraps_modulo_256() {
    // base 0xFF plus index 0x02 resolves to 0x01, not 0x101
    let mut cpu = setup_cpu(0x0200, &[LDA_ZPX, 0xFF, NOP]);
    cpu.x = 0x02;
    cpu.mem.write_byte(0x0001, 0x5A).unwrap();
    cpu.mem.write_byte(0x0101, 0xA5).unwrap();
    assert_eq!(cpu.execute(10).unwrap(), RunOutcome::Halted);
    assert_eq!(cpu.a, 0x5A);
}

#[test]
fn indexed_indirect_wraps_pointer_in_zero_page() {
    // pointer = (0xFF + 0x02) mod 256 = 0x01; the word there is followed
    let mut cpu = setup_cpu(0x0200, &[LDA_ZPXI, 0xFF, NOP]);
    cpu.x = 0x02;
    cpu.mem.write_word(0x0001, 0x4321).unwrap();
    cpu.mem.write_byte(0x4321, 0x77).unwrap();
    assert_eq!(cpu.execute(10).unwrap(), RunOutcome::Halted);
    assert_eq!(cpu.a, 0x77);
}

#[test]
fn indirect_indexed_adds_y_after_the_lookup() {
    let mut cpu = setup_cpu(0x0200, &[LDA_ZPYI, 0x40, NOP]);
    cpu.y = 0x03;
    cpu.mem.write_word(0x0040, 0x1234).unwrap();
    cpu.mem.write_byte(0x1237, 0x66).unwrap();
    assert_eq!(cpu.execute(10).unwrap(), RunOutcome::Halted);
    assert_eq!(cpu.a, 0x66);
}

#[test]
fn push_then_pop_restores_value_and_stack_pointer() {
    let mut cpu = setup_cpu(0x0200, &[LDA_IM, 0x5A, PHA, LDA_IM, 0x00, PLA, NOP]);
    let sp_before = cpu.sp;
    assert_eq!(cpu.execute(10).unwrap(), RunOutcome::Halted);
    assert_eq!(cpu.a, 0x5A);
    assert_eq!(cpu.sp, sp_before);
}

#[test]
fn push_then_pop_restores_status_byte() {
    // LDA #$80 sets N; PHP saves it; LDA #$01 clears N; PLP brings N back
    let mut cpu = setup_cpu(0x0200, &[LDA_IM, 0x80, PHP, LDA_IM, 0x01, PLP, NOP]);
    let sp_before = cpu.sp;
    assert_eq!(cpu.execute(10).unwrap(), RunOutcome::Halted);
    assert!(cpu.p.get_flag(FLAG_N));
    assert!(!cpu.p.get_flag(FLAG_Z));
    assert_eq!(cpu.sp, sp_before);
}

#[test]
fn call_then_return_resumes_after_the_call() {
    // 0x0200: JSR 0x0300; 0x0203: NOP          0x0300: RTS
    let mut cpu = setup_cpu(0x0200, &[JSR, 0x00, 0x03, NOP]);
    cpu.mem.write_byte(0x0300, RTS).unwrap();
    let sp_before = cpu.sp;
    assert_eq!(cpu.execute(10).unwrap(), RunOutcome::Halted);
    // the NOP right after the call's three-byte encoding was executed
    assert_eq!(cpu.pc, 0x0204);
    assert_eq!(cpu.sp, sp_before);
}

#[test]
fn lsr_accumulator_shifts_into_carry() {
    let mut cpu = setup_cpu(0x0200, &[LDA_IM, 0b0000_0011, LSR_ACC, NOP]);
    assert_eq!(cpu.execute(10).unwrap(), RunOutcome::Halted);
    assert_eq!(cpu.a, 0b0000_0001);
    assert!(cpu.p.get_flag(FLAG_C));
    assert!(!cpu.p.get_flag(FLAG_N));
    assert!(!cpu.p.get_flag(FLAG_Z));
}

#[test]
fn lsr_of_zero_sets_z_and_clears_carry() {
    let mut cpu = setup_cpu(0x0200, &[LDA_IM, 0x00, LSR_ACC, NOP]);
    cpu.p.set_flag(FLAG_C, true);
    assert_eq!(cpu.execute(10).unwrap(), RunOutcome::Halted);
    assert_eq!(cpu.a, 0);
    assert!(cpu.p.get_flag(FLAG_Z));
    assert!(!cpu.p.get_flag(FLAG_C));
}

#[test]
fn lsr_zero_page_shifts_in_memory() {
    let mut cpu = setup_cpu(0x0200, &[LSR_ZP, 0x42, NOP]);
    cpu.mem.write_byte(0x0042, 0b0000_0011).unwrap();
    assert_eq!(cpu.execute(10).unwrap(), RunOutcome::Halted);
    assert_eq!(cpu.mem.read_byte(0x0042).unwrap(), 0b0000_0001);
    assert!(cpu.p.get_flag(FLAG_C));
    assert!(!cpu.p.get_flag(FLAG_N));
}

#[test]
fn logical_instructions_combine_with_accumulator() {
    let mut cpu = setup_cpu(0x0200, &[LDA_IM, 0xF0, ORA_IM, 0x0F, NOP]);
    cpu.execute(10).unwrap();
    assert_eq!(cpu.a, 0xFF);
    assert!(cpu.p.get_flag(FLAG_N));

    let mut cpu = setup_cpu(0x0200, &[LDA_IM, 0xF0, ANDA_IM, 0x0F, NOP]);
    cpu.execute(10).unwrap();
    assert_eq!(cpu.a, 0x00);
    assert!(cpu.p.get_flag(FLAG_Z));

    let mut cpu = setup_cpu(0x0200, &[LDA_IM, 0xFF, EORA_IM, 0x0F, NOP]);
    cpu.execute(10).unwrap();
    assert_eq!(cpu.a, 0xF0);
    assert!(cpu.p.get_flag(FLAG_N));
}

#[test]
fn transfers_copy_between_registers() {
    let mut cpu = setup_cpu(0x0200, &[LDA_IM, 0x42, TAX, NOP]);
    cpu.execute(10).unwrap();
    assert_eq!(cpu.x, 0x42);

    // X to stack pointer lands in the stack page and touches no flags
    let mut cpu = setup_cpu(0x0200, &[TXS, NOP]);
    cpu.x = 0x55;
    let flags_before = cpu.p.bits();
    cpu.execute(10).unwrap();
    assert_eq!(cpu.sp, 0x0155);
    assert_eq!(cpu.p.bits(), flags_before);

    // stack pointer's low byte to X, with flags
    let mut cpu = setup_cpu(0x0200, &[TSX, NOP]);
    cpu.sp = 0x0123;
    cpu.execute(10).unwrap();
    assert_eq!(cpu.x, 0x23);
    assert!(!cpu.p.get_flag(FLAG_Z));
    assert!(!cpu.p.get_flag(FLAG_N));
}

#[test]
fn step_advances_one_instruction() {
    let mut cpu = setup_cpu(0x0200, &[LDA_IM, 0x07, NOP]);
    assert_eq!(cpu.step().unwrap(), StepOutcome::Stepped);
    assert_eq!(cpu.pc, 0x0202);
    assert_eq!(cpu.a, 0x07);
    assert_eq!(cpu.step().unwrap(), StepOutcome::Halted);
    assert_eq!(cpu.pc, 0x0203);
}

#[test]
fn unknown_opcode_stops_with_pc_past_the_byte() {
    let mut cpu = setup_cpu(0x0200, &[0xFF]);
    let err = cpu.execute(10).unwrap_err();
    assert_eq!(err.kind, ErrorKind::UnknownOpcode);
    // the program counter moved past the fetched byte and no further
    assert_eq!(cpu.pc, 0x0201);
    assert_eq!(err.snapshot.pc, 0x0201);
    assert_eq!(err.snapshot.flags.len(), 8);
}

#[test]
fn absolute_x_past_memory_end_is_out_of_bounds() {
    let mut cpu = setup_cpu(0x0200, &[LDA_ABSX, 0xFF, 0xFF, NOP]);
    cpu.x = 0x01;
    let err = cpu.execute(10).unwrap_err();
    assert_eq!(err.kind, ErrorKind::OutOfBounds);
}

#[test]
fn pop_at_memory_top_is_out_of_bounds() {
    let mut cpu = setup_cpu(0x0200, &[PLA, NOP]);
    cpu.sp = 0xFFFF;
    let err = cpu.execute(10).unwrap_err();
    assert_eq!(err.kind, ErrorKind::OutOfBounds);
}

#[test]
fn push_at_memory_bottom_is_out_of_bounds() {
    let mut cpu = setup_cpu(0x0200, &[PHA, NOP]);
    cpu.sp = 0x0000;
    let err = cpu.execute(10).unwrap_err();
    assert_eq!(err.kind, ErrorKind::OutOfBounds);
}

#[test]
fn execute_reports_when_the_step_budget_runs_out() {
    // a subroutine call to its own address keeps running until the budget
    // (or, much later, the stack) runs out
    let mut cpu = setup_cpu(0x0200, &[JSR, 0x00, 0x02]);
    assert_eq!(cpu.execute(5).unwrap(), RunOutcome::StepLimitReached);
    assert_eq!(cpu.pc, 0x0200);
}

#[test]
fn reset_without_address_uses_the_reset_vector() {
    let mut cpu = Cpu::new();
    cpu.a = 9;
    cpu.x = 9;
    cpu.y = 9;
    cpu.p.set_flag(FLAG_N, true);
    cpu.reset(None);
    assert_eq!(cpu.pc, 0xFFFC);
    assert_eq!(cpu.sp, 0x0100);
    assert_eq!(cpu.a, 0);
    assert_eq!(cpu.x, 0);
    assert_eq!(cpu.y, 0);
    assert_eq!(cpu.p.bits(), 0);
}

#[test]
fn reset_with_address_goes_through_the_vector() {
    let mut cpu = Cpu::new();
    cpu.reset(Some(0x8001));
    assert_eq!(cpu.pc, 0x8001);
    // the address was really written at the reset-vector location
    assert_eq!(cpu.mem.read_byte(0xFFFC).unwrap(), 0x01);
    assert_eq!(cpu.mem.read_byte(0xFFFD).unwrap(), 0x80);
}

#[test]
fn load_program_copies_the_image() {
    let mut cpu = Cpu::new();
    cpu.load_program(0x0010, vec![1, 2, 3]).unwrap();
    assert_eq!(cpu.mem.read_byte(0x0010).unwrap(), 1);
    assert_eq!(cpu.mem.read_byte(0x0011).unwrap(), 2);
    assert_eq!(cpu.mem.read_byte(0x0012).unwrap(), 3);
    assert_eq!(cpu.mem.read_byte(0x0013).unwrap(), 0);
}

#[test]
fn load_program_past_memory_end_is_refused() {
    let mut cpu = Cpu::new();
    let r = cpu.load_program(0xFFFE, vec![1, 2, 3]);
    assert_eq!(r, Err(ErrorKind::OutOfBounds));
    // nothing was written
    assert_eq!(cpu.mem.read_byte(0xFFFE).unwrap(), 0);
    assert_eq!(cpu.mem.read_byte(0xFFFF).unwrap(), 0);
}

#[test]
fn snapshot_reports_registers_and_flag_display() {
    let mut cpu = Cpu::new();
    cpu.pc = 0x1234;
    cpu.sp = 0x01FF;
    cpu.a = 1;
    cpu.x = 2;
    cpu.y = 3;
    cpu.p.set_flag(FLAG_N, true);
    cpu.p.set_flag(FLAG_C, true);
    let snap = cpu.snapshot();
    assert_eq!(snap.pc, 0x1234);
    assert_eq!(snap.sp, 0x01FF);
    assert_eq!(snap.a, 1);
    assert_eq!(snap.x, 2);
    assert_eq!(snap.y, 3);
    assert_eq!(snap.p, 0x81);
    assert_eq!(snap.flags, "10000001");
}

#[test]
fn handlers_can_be_driven_one_instruction_at_a_time() {
    // the handler begins after the opcode byte: point pc at the operand
    let mut cpu = Cpu::new();
    cpu.reset(None);
    cpu.pc = 0x0200;
    cpu.mem.write_byte(0x0200, 0x80).unwrap();
    cpu.lda(AddrMode::Immediate).unwrap();
    assert_eq!(cpu.a, 0x80);
    assert_eq!(cpu.pc, 0x0201);
    assert!(cpu.p.get_flag(FLAG_N));
}

#[test]
fn decode_maps_opcodes_to_handlers() {
    assert_eq!(decode(LDA_IM), Some(Instruction::Lda(AddrMode::Immediate)));
    assert_eq!(decode(JSR), Some(Instruction::Jsr));
    assert_eq!(decode(NOP), Some(Instruction::Nop));
    assert_eq!(decode(0xFF), None);
    assert_eq!(decode(0x00), None);
}

#[test]
fn fetch_at_the_top_of_memory_cannot_advance() {
    let mut cpu = Cpu::new();
    cpu.reset(None);
    cpu.pc = 0xFFFF;
    let err = cpu.execute(10).unwrap_err();
    assert_eq!(err.kind, ErrorKind::OutOfBounds);
    // the counter could not move past the fetched byte, so it is unchanged
    assert_eq!(cpu.pc, 0xFFFF);
}

#[test]
fn halt_just_below_the_top_of_memory_works() {
    let mut cpu = Cpu::new();
    cpu.reset(None);
    cpu.pc = 0xFFFE;
    cpu.mem.write_byte(0xFFFE, NOP).unwrap();
    assert_eq!(cpu.execute(10).unwrap(), RunOutcome::Halted);
    assert_eq!(cpu.pc, 0xFFFF);
}
