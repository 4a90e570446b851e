//! The processor status register: seven independent one-bit flags packed
//! into a byte, with set/clear/query operations and a stable display form.

use vstd::prelude::*;
use vstd::string::StringExecFns;

verus! {

/// Negative: bit 7 of the most recent relevant result.
pub const FLAG_N: u8 = 0x80;
/// Overflow (not computed by any instruction of this core).
pub const FLAG_V: u8 = 0x40;
/// Break (unused by this core).
pub const FLAG_B: u8 = 0x10;
/// Decimal mode (unused by this core).
pub const FLAG_D: u8 = 0x08;
/// Interrupt disable (unused by this core).
pub const FLAG_I: u8 = 0x04;
/// Zero: the most recent relevant result was zero.
pub const FLAG_Z: u8 = 0x02;
/// Carry: the bit shifted out by the most recent shift.
pub const FLAG_C: u8 = 0x01;

/// The flag byte with one flag forced to the given value, all others kept.
pub open spec fn flag_set(p: u8, flag: u8, value: bool) -> u8 {
    if value {
        p | flag
    } else {
        p & !flag
    }
}

/// Whether a flag is set in the flag byte.
pub open spec fn flag_get(p: u8, flag: u8) -> bool {
    p & flag != 0
}

/// One character of the display form: '1' where the masked bit is set.
pub open spec fn bit_char(p: u8, mask: u8) -> char {
    if p & mask != 0 {
        '1'
    } else {
        '0'
    }
}

/// The display form of a flag byte: eight '0'/'1' characters, most
/// significant bit first.
pub open spec fn display_spec(p: u8) -> Seq<char> {
    seq![
        bit_char(p, 0x80),
        bit_char(p, 0x40),
        bit_char(p, 0x20),
        bit_char(p, 0x10),
        bit_char(p, 0x08),
        bit_char(p, 0x04),
        bit_char(p, 0x02),
        bit_char(p, 0x01),
    ]
}

/// The processor status register.  Its view is the raw flag byte.
#[derive(Clone, Copy, Debug, PartialEq, Eq, Structural)]
pub struct ProcStat {
    bits: u8,
}

impl View for ProcStat {
    type V = u8;

    closed spec fn view(&self) -> u8 {
        self.bits
    }
}

impl ProcStat {
    /// A status register with every flag clear.
    pub fn new() -> (r: ProcStat)
        ensures
            r@ == 0,
    {
        ProcStat { bits: 0 }
    }

    /// A status register holding exactly the given byte, as the stack-pop
    /// instruction for the status register requires.
    pub fn from_bits(bits: u8) -> (r: ProcStat)
        ensures
            r@ == bits,
    {
        ProcStat { bits }
    }

    /// The raw flag byte, as the stack-push instruction for the status
    /// register requires.
    pub fn bits(&self) -> (r: u8)
        ensures
            r == self@,
    {
        self.bits
    }

    /// Clears every flag.
    pub fn clear(&mut self)
        ensures
            final(self)@ == 0,
    {
        self.bits = 0;
    }

    /// Forces one flag to the given value; all other flags keep their value.
    pub fn set_flag(&mut self, flag: u8, value: bool)
        ensures
            final(self)@ == flag_set(old(self)@, flag, value),
    {
        if value {
            self.bits = self.bits | flag;
        } else {
            self.bits = self.bits & !flag;
        }
    }

    /// Whether the given flag is set.
    pub fn get_flag(&self, flag: u8) -> (r: bool)
        ensures
            r == flag_get(self@, flag),
    {
        self.bits & flag != 0
    }

    /// The display form: eight '0'/'1' characters, most significant bit
    /// first.  Diagnostic only, not a wire format.
    pub fn to_display(&self) -> (r: String)
        ensures
            r@ == display_spec(self@),
    {
        proof {
            reveal_strlit("0");
            reveal_strlit("1");
        }
        let mut s = String::new();
        if self.bits & 0x80 != 0 {
            s.append("1");
        } else {
            s.append("0");
        }
        if self.bits & 0x40 != 0 {
            s.append("1");
        } else {
            s.append("0");
        }
        if self.bits & 0x20 != 0 {
            s.append("1");
        } else {
            s.append("0");
        }
        if self.bits & 0x10 != 0 {
            s.append("1");
        } else {
            s.append("0");
        }
        if self.bits & 0x08 != 0 {
            s.append("1");
        } else {
            s.append("0");
        }
        if self.bits & 0x04 != 0 {
            s.append("1");
        } else {
            s.append("0");
        }
        if self.bits & 0x02 != 0 {
            s.append("1");
        } else {
            s.append("0");
        }
        if self.bits & 0x01 != 0 {
            s.append("1");
        } else {
            s.append("0");
        }
        proof {
            assert(s@ =~= display_spec(self@));
        }
        s
    }
}

impl Default for ProcStat {
    /// Same as [`ProcStat::new`]: every flag clear.
    fn default() -> (r: ProcStat)
        ensures
            r@ == 0,
    {
        ProcStat { bits: 0 }
    }
}

} // verus!
