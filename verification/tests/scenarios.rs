use emu6502::cpu::{Cpu, RunOutcome};
use emu6502::op_codes::{LDA_IM, LDX_ABS, NOP};
use emu6502::proc_stat::{FLAG_N, FLAG_Z};

#[test]
fn end_to_end_ldx_absolute_from_high_memory() {
    // memory preloaded with LDX absolute -> 0x4480; [0x4480] = 0x37; NOP,
    // starting at program counter 0xFFF0
    let mut cpu = Cpu::new();
    cpu.reset(None);
    cpu.pc = 0xFFF0;
    cpu.mem.write_byte(0xFFF0, LDX_ABS).unwrap();
    cpu.mem.write_byte(0xFFF1, 0x80).unwrap();
    cpu.mem.write_byte(0xFFF2, 0x44).unwrap();
    cpu.mem.write_byte(0x4480, 0x37).unwrap();
    cpu.mem.write_byte(0xFFF3, NOP).unwrap();

    assert_eq!(cpu.execute(100).unwrap(), RunOutcome::Halted);
    assert_eq!(cpu.x, 0x37);
    // a nonzero, non-negative byte: both flags clear
    assert!(!cpu.p.get_flag(FLAG_Z));
    assert!(!cpu.p.get_flag(FLAG_N));
}

#[test]
fn end_to_end_lda_immediate_negative() {
    // LDA immediate 0x80, then halt
    let mut cpu = Cpu::new();
    cpu.reset(None);
    cpu.pc = 0x0200;
    cpu.load_program(0x0200, vec![LDA_IM, 0x80, NOP]).unwrap();

    assert_eq!(cpu.execute(100).unwrap(), RunOutcome::Halted);
    assert_eq!(cpu.a, 0x80);
    assert!(cpu.p.get_flag(FLAG_N));
    assert!(!cpu.p.get_flag(FLAG_Z));
}
