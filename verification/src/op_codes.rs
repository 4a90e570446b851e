//! The opcode table: the 8-bit opcode values the engine recognizes, the
//! decoded instruction type, and the decode step that maps one to the other.

use vstd::prelude::*;

verus! {

/// load accumulator immediate
pub const LDA_IM: u8 = 0xA9;
/// load accumulator absolute
pub const LDA_ABS: u8 = 0xAD;
/// load accumulator absolute x indexed
pub const LDA_ABSX: u8 = 0xBD;
/// load accumulator absolute y indexed
pub const LDA_ABSY: u8 = 0xB9;
/// load accumulator zero page
pub const LDA_ZP: u8 = 0xA5;
/// load accumulator zero page, x index
pub const LDA_ZPX: u8 = 0xB5;
/// load accumulator zero page x indexed indirect
pub const LDA_ZPXI: u8 = 0xA1;
/// load accumulator zero page indirect y indexed
pub const LDA_ZPYI: u8 = 0xB1;

/// load x index immediate
pub const LDX_IM: u8 = 0xA2;
/// load x index absolute
pub const LDX_ABS: u8 = 0xA3;
/// load x index y indexed absolute
pub const LDX_ABSY: u8 = 0xBE;
/// load x index zero page
pub const LDX_ZP: u8 = 0xA6;
/// load x index y indexed zero page
pub const LDX_ZPY: u8 = 0xB6;

/// load y immediate
pub const LDY_IM: u8 = 0xA0;
/// load y index absolute
pub const LDY_ABS: u8 = 0xAC;
/// load y index x indexed absolute
pub const LDY_ABSX: u8 = 0xBC;
/// load y index zero page
pub const LDY_ZP: u8 = 0xA4;
/// load y index x indexed zero page
pub const LDY_ZPX: u8 = 0xB4;

/// logical shift right accumulator
pub const LSR_ACC: u8 = 0x4A;
/// logical shift right absolute
pub const LSR_ABS: u8 = 0x4E;
/// logical shift right zero page
pub const LSR_ZP: u8 = 0x46;
/// logical shift right absolute x indexed
pub const LSR_ABSX: u8 = 0x5E;
/// logical shift right zero page x indexed
pub const LSR_ZPX: u8 = 0x56;

/// push accumulator on the stack
pub const PHA: u8 = 0x48;
/// push processor status on the stack
pub const PHP: u8 = 0x08;
/// pop accumulator from the stack
pub const PLA: u8 = 0x68;
/// pop processor status from the stack
pub const PLP: u8 = 0x28;

/// or accumulator immediate
pub const ORA_IM: u8 = 0x09;
/// or accumulator absolute
pub const ORA_ABS: u8 = 0x0D;
/// or accumulator x indexed absolute
pub const ORA_ABSX: u8 = 0x1D;
/// or accumulator y indexed absolute
pub const ORA_ABSY: u8 = 0x19;
/// or accumulator zero page
pub const ORA_ZP: u8 = 0x05;
/// or accumulator x indexed zero page
pub const ORA_ZPX: u8 = 0x15;
/// or accumulator x indexed zero page indirect
pub const ORA_ZPXI: u8 = 0x01;
/// or accumulator zero page indirect y indexed
pub const ORA_ZPYI: u8 = 0x11;

/// and accumulator immediate
pub const ANDA_IM: u8 = 0x29;
/// and accumulator absolute
pub const ANDA_ABS: u8 = 0x2D;
/// and accumulator x indexed absolute
pub const ANDA_ABSX: u8 = 0x3D;
/// and accumulator y indexed absolute
pub const ANDA_ABSY: u8 = 0x39;
/// and accumulator zero page
pub const ANDA_ZP: u8 = 0x25;
/// and accumulator x indexed zero page
pub const ANDA_ZPX: u8 = 0x35;
/// and accumulator x indexed zero page indirect
pub const ANDA_ZPXI: u8 = 0x21;
/// and accumulator zero page indirect y indexed
pub const ANDA_ZPYI: u8 = 0x31;

/// exclusive or accumulator immediate
pub const EORA_IM: u8 = 0x49;
/// exclusive or accumulator absolute
pub const EORA_ABS: u8 = 0x4D;
/// exclusive or accumulator x indexed absolute
pub const EORA_ABSX: u8 = 0x5D;
/// exclusive or accumulator y indexed absolute
pub const EORA_ABSY: u8 = 0x59;
/// exclusive or accumulator zero page
pub const EORA_ZP: u8 = 0x45;
/// exclusive or accumulator x indexed zero page
pub const EORA_ZPX: u8 = 0x55;
/// exclusive or accumulator x indexed zero page indirect
pub const EORA_ZPXI: u8 = 0x41;
/// exclusive or accumulator zero page indirect y indexed
pub const EORA_ZPYI: u8 = 0x51;

/// transfer accumulator to x index
pub const TAX: u8 = 0xAA;
/// transfer accumulator to y index
pub const TAY: u8 = 0xA8;
/// transfer x index to accumulator
pub const TXA: u8 = 0x8A;
/// transfer y index to accumulator
pub const TYA: u8 = 0x98;
/// transfer x index to stack pointer
pub const TXS: u8 = 0x9A;
/// transfer stack pointer to x index
pub const TSX: u8 = 0xBA;

/// no-op / halt: stops the execute loop cleanly
pub const NOP: u8 = 0xEA;
/// jump to subroutine
pub const JSR: u8 = 0x20;
/// return from subroutine
pub const RTS: u8 = 0x60;

/// The rule for computing which memory location (or immediate value) an
/// instruction operates on.
#[derive(Clone, Copy, Debug, PartialEq, Eq, Structural)]
pub enum AddrMode {
    /// The next fetched byte is the operand itself.
    Immediate,
    /// The next byte is the address, in range 0..256.
    ZeroPage,
    /// (next byte + X) mod 256.
    ZeroPageX,
    /// (next byte + Y) mod 256.
    ZeroPageY,
    /// The next little-endian word is the address.
    Absolute,
    /// Absolute word + X (16-bit add, out of bounds is fatal).
    AbsoluteX,
    /// Absolute word + Y (16-bit add, out of bounds is fatal).
    AbsoluteY,
    /// Pointer = (next byte + X) mod 256; address = word at pointer.
    IndexedIndirect,
    /// Pointer = next byte; address = word at pointer + Y (16-bit add).
    IndirectIndexed,
}

/// A decoded instruction: the handler identity an opcode maps to.
#[derive(Clone, Copy, Debug, PartialEq, Eq, Structural)]
pub enum Instruction {
    /// Load accumulator.
    Lda(AddrMode),
    /// Load index X.
    Ldx(AddrMode),
    /// Load index Y.
    Ldy(AddrMode),
    /// Or accumulator with operand.
    Ora(AddrMode),
    /// And accumulator with operand.
    Anda(AddrMode),
    /// Exclusive-or accumulator with operand.
    Eor(AddrMode),
    /// Logical shift right of the accumulator.
    LsrAcc,
    /// Logical shift right of a memory operand.
    LsrMem(AddrMode),
    /// Push accumulator.
    Pha,
    /// Push processor status.
    Php,
    /// Pop accumulator.
    Pla,
    /// Pop processor status.
    Plp,
    /// Transfer accumulator to X.
    Tax,
    /// Transfer accumulator to Y.
    Tay,
    /// Transfer X to accumulator.
    Txa,
    /// Transfer Y to accumulator.
    Tya,
    /// Transfer X to the stack pointer.
    Txs,
    /// Transfer the stack pointer's low byte to X.
    Tsx,
    /// Jump to subroutine.
    Jsr,
    /// Return from subroutine.
    Rts,
    /// No-op / halt.
    Nop,
}

/// The decode mapping from an opcode byte to a handler identity; `None`
/// where the byte has no registered handler.
pub open spec fn sdecode(op: u8) -> Option<Instruction> {
    if op == LDA_IM {
        Some(Instruction::Lda(AddrMode::Immediate))
    } else if op == LDA_ABS {
        Some(Instruction::Lda(AddrMode::Absolute))
    } else if op == LDA_ABSX {
        Some(Instruction::Lda(AddrMode::AbsoluteX))
    } else if op == LDA_ABSY {
        Some(Instruction::Lda(AddrMode::AbsoluteY))
    } else if op == LDA_ZP {
        Some(Instruction::Lda(AddrMode::ZeroPage))
    } else if op == LDA_ZPX {
        Some(Instruction::Lda(AddrMode::ZeroPageX))
    } else if op == LDA_ZPXI {
        Some(Instruction::Lda(AddrMode::IndexedIndirect))
    } else if op == LDA_ZPYI {
        Some(Instruction::Lda(AddrMode::IndirectIndexed))
    } else if op == LDX_IM {
        Some(Instruction::Ldx(AddrMode::Immediate))
    } else if op == LDX_ABS {
        Some(Instruction::Ldx(AddrMode::Absolute))
    } else if op == LDX_ABSY {
        Some(Instruction::Ldx(AddrMode::AbsoluteY))
    } else if op == LDX_ZP {
        Some(Instruction::Ldx(AddrMode::ZeroPage))
    } else if op == LDX_ZPY {
        Some(Instruction::Ldx(AddrMode::ZeroPageY))
    } else if op == LDY_IM {
        Some(Instruction::Ldy(AddrMode::Immediate))
    } else if op == LDY_ABS {
        Some(Instruction::Ldy(AddrMode::Absolute))
    } else if op == LDY_ABSX {
        Some(Instruction::Ldy(AddrMode::AbsoluteX))
    } else if op == LDY_ZP {
        Some(Instruction::Ldy(AddrMode::ZeroPage))
    } else if op == LDY_ZPX {
        Some(Instruction::Ldy(AddrMode::ZeroPageX))
    } else if op == LSR_ACC {
        Some(Instruction::LsrAcc)
    } else if op == LSR_ABS {
        Some(Instruction::LsrMem(AddrMode::Absolute))
    } else if op == LSR_ZP {
        Some(Instruction::LsrMem(AddrMode::ZeroPage))
    } else if op == LSR_ABSX {
        Some(Instruction::LsrMem(AddrMode::AbsoluteX))
    } else if op == LSR_ZPX {
        Some(Instruction::LsrMem(AddrMode::ZeroPageX))
    } else if op == PHA {
        Some(Instruction::Pha)
    } else if op == PHP {
        Some(Instruction::Php)
    } else if op == PLA {
        Some(Instruction::Pla)
    } else if op == PLP {
        Some(Instruction::Plp)
    } else if op == ORA_IM {
        Some(Instruction::Ora(AddrMode::Immediate))
    } else if op == ORA_ABS {
        Some(Instruction::Ora(AddrMode::Absolute))
    } else if op == ORA_ABSX {
        Some(Instruction::Ora(AddrMode::AbsoluteX))
    } else if op == ORA_ABSY {
        Some(Instruction::Ora(AddrMode::AbsoluteY))
    } else if op == ORA_ZP {
        Some(Instruction::Ora(AddrMode::ZeroPage))
    } else if op == ORA_ZPX {
        Some(Instruction::Ora(AddrMode::ZeroPageX))
    } else if op == ORA_ZPXI {
        Some(Instruction::Ora(AddrMode::IndexedIndirect))
    } else if op == ORA_ZPYI {
        Some(Instruction::Ora(AddrMode::IndirectIndexed))
    } else if op == ANDA_IM {
        Some(Instruction::Anda(AddrMode::Immediate))
    } else if op == ANDA_ABS {
        Some(Instruction::Anda(AddrMode::Absolute))
    } else if op == ANDA_ABSX {
        Some(Instruction::Anda(AddrMode::AbsoluteX))
    } else if op == ANDA_ABSY {
        Some(Instruction::Anda(AddrMode::AbsoluteY))
    } else if op == ANDA_ZP {
        Some(Instruction::Anda(AddrMode::ZeroPage))
    } else if op == ANDA_ZPX {
        Some(Instruction::Anda(AddrMode::ZeroPageX))
    } else if op == ANDA_ZPXI {
        Some(Instruction::Anda(AddrMode::IndexedIndirect))
    } else if op == ANDA_ZPYI {
        Some(Instruction::Anda(AddrMode::IndirectIndexed))
    } else if op == EORA_IM {
        Some(Instruction::Eor(AddrMode::Immediate))
    } else if op == EORA_ABS {
        Some(Instruction::Eor(AddrMode::Absolute))
    } else if op == EORA_ABSX {
        Some(Instruction::Eor(AddrMode::AbsoluteX))
    } else if op == EORA_ABSY {
        Some(Instruction::Eor(AddrMode::AbsoluteY))
    } else if op == EORA_ZP {
        Some(Instruction::Eor(AddrMode::ZeroPage))
    } else if op == EORA_ZPX {
        Some(Instruction::Eor(AddrMode::ZeroPageX))
    } else if op == EORA_ZPXI {
        Some(Instruction::Eor(AddrMode::IndexedIndirect))
    } else if op == EORA_ZPYI {
        Some(Instruction::Eor(AddrMode::IndirectIndexed))
    } else if op == TAX {
        Some(Instruction::Tax)
    } else if op == TAY {
        Some(Instruction::Tay)
    } else if op == TXA {
        Some(Instruction::Txa)
    } else if op == TYA {
        Some(Instruction::Tya)
    } else if op == TXS {
        Some(Instruction::Txs)
    } else if op == TSX {
        Some(Instruction::Tsx)
    } else if op == JSR {
        Some(Instruction::Jsr)
    } else if op == RTS {
        Some(Instruction::Rts)
    } else if op == NOP {
        Some(Instruction::Nop)
    } else {
        None
    }
}

/// The decode step, separated from execution: an O(1) dispatch lookup over
/// the 256 possible opcode values.
pub fn decode(op: u8) -> (r: Option<Instruction>)
    ensures
        r == sdecode(op),
{
    match op {
        LDA_IM => Some(Instruction::Lda(AddrMode::Immediate)),
        LDA_ABS => Some(Instruction::Lda(AddrMode::Absolute)),
        LDA_ABSX => Some(Instruction::Lda(AddrMode::AbsoluteX)),
        LDA_ABSY => Some(Instruction::Lda(AddrMode::AbsoluteY)),
        LDA_ZP => Some(Instruction::Lda(AddrMode::ZeroPage)),
        LDA_ZPX => Some(Instruction::Lda(AddrMode::ZeroPageX)),
        LDA_ZPXI => Some(Instruction::Lda(AddrMode::IndexedIndirect)),
        LDA_ZPYI => Some(Instruction::Lda(AddrMode::IndirectIndexed)),
        LDX_IM => Some(Instruction::Ldx(AddrMode::Immediate)),
        LDX_ABS => Some(Instruction::Ldx(AddrMode::Absolute)),
        LDX_ABSY => Some(Instruction::Ldx(AddrMode::AbsoluteY)),
        LDX_ZP => Some(Instruction::Ldx(AddrMode::ZeroPage)),
        LDX_ZPY => Some(Instruction::Ldx(AddrMode::ZeroPageY)),
        LDY_IM => Some(Instruction::Ldy(AddrMode::Immediate)),
        LDY_ABS => Some(Instruction::Ldy(AddrMode::Absolute)),
        LDY_ABSX => Some(Instruction::Ldy(AddrMode::AbsoluteX)),
        LDY_ZP => Some(Instruction::Ldy(AddrMode::ZeroPage)),
        LDY_ZPX => Some(Instruction::Ldy(AddrMode::ZeroPageX)),
        LSR_ACC => Some(Instruction::LsrAcc),
        LSR_ABS => Some(Instruction::LsrMem(AddrMode::Absolute)),
        LSR_ZP => Some(Instruction::LsrMem(AddrMode::ZeroPage)),
        LSR_ABSX => Some(Instruction::LsrMem(AddrMode::AbsoluteX)),
        LSR_ZPX => Some(Instruction::LsrMem(AddrMode::ZeroPageX)),
        PHA => Some(Instruction::Pha),
        PHP => Some(Instruction::Php),
        PLA => Some(Instruction::Pla),
        PLP => Some(Instruction::Plp),
        ORA_IM => Some(Instruction::Ora(AddrMode::Immediate)),
        ORA_ABS => Some(Instruction::Ora(AddrMode::Absolute)),
        ORA_ABSX => Some(Instruction::Ora(AddrMode::AbsoluteX)),
        ORA_ABSY => Some(Instruction::Ora(AddrMode::AbsoluteY)),
        ORA_ZP => Some(Instruction::Ora(AddrMode::ZeroPage)),
        ORA_ZPX => Some(Instruction::Ora(AddrMode::ZeroPageX)),
        ORA_ZPXI => Some(Instruction::Ora(AddrMode::IndexedIndirect)),
        ORA_ZPYI => Some(Instruction::Ora(AddrMode::IndirectIndexed)),
        ANDA_IM => Some(Instruction::Anda(AddrMode::Immediate)),
        ANDA_ABS => Some(Instruction::Anda(AddrMode::Absolute)),
        ANDA_ABSX => Some(Instruction::Anda(AddrMode::AbsoluteX)),
        ANDA_ABSY => Some(Instruction::Anda(AddrMode::AbsoluteY)),
        ANDA_ZP => Some(Instruction::Anda(AddrMode::ZeroPage)),
        ANDA_ZPX => Some(Instruction::Anda(AddrMode::ZeroPageX)),
        ANDA_ZPXI => Some(Instruction::Anda(AddrMode::IndexedIndirect)),
        ANDA_ZPYI => Some(Instruction::Anda(AddrMode::IndirectIndexed)),
        EORA_IM => Some(Instruction::Eor(AddrMode::Immediate)),
        EORA_ABS => Some(Instruction::Eor(AddrMode::Absolute)),
        EORA_ABSX => Some(Instruction::Eor(AddrMode::AbsoluteX)),
        EORA_ABSY => Some(Instruction::Eor(AddrMode::AbsoluteY)),
        EORA_ZP => Some(Instruction::Eor(AddrMode::ZeroPage)),
        EORA_ZPX => Some(Instruction::Eor(AddrMode::ZeroPageX)),
        EORA_ZPXI => Some(Instruction::Eor(AddrMode::IndexedIndirect)),
        EORA_ZPYI => Some(Instruction::Eor(AddrMode::IndirectIndexed)),
        TAX => Some(Instruction::Tax),
        TAY => Some(Instruction::Tay),
        TXA => Some(Instruction::Txa),
        TYA => Some(Instruction::Tya),
        TXS => Some(Instruction::Txs),
        TSX => Some(Instruction::Tsx),
        JSR => Some(Instruction::Jsr),
        RTS => Some(Instruction::Rts),
        NOP => Some(Instruction::Nop),
        _ => None,
    }
}

} // verus!
