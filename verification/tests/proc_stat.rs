use emu6502::proc_stat::{
    ProcStat, FLAG_B, FLAG_C, FLAG_D, FLAG_I, FLAG_N, FLAG_V, FLAG_Z,
};

#[test]
fn new_status_has_all_flags_clear() {
    let p = ProcStat::new();
    assert_eq!(p.bits(), 0);
    assert!(!p.get_flag(FLAG_N));
    assert!(!p.get_flag(FLAG_V));
    assert!(!p.get_flag(FLAG_B));
    assert!(!p.get_flag(FLAG_D));
    assert!(!p.get_flag(FLAG_I));
    assert!(!p.get_flag(FLAG_Z));
    assert!(!p.get_flag(FLAG_C));
}

#[test]
fn set_flag_is_independent_per_bit() {
    let mut p = ProcStat::new();
    p.set_flag(FLAG_N, true);
    p.set_flag(FLAG_C, true);
    assert!(p.get_flag(FLAG_N));
    assert!(p.get_flag(FLAG_C));
    assert!(!p.get_flag(FLAG_Z));
    assert_eq!(p.bits(), 0x81);

    p.set_flag(FLAG_N, false);
    assert!(!p.get_flag(FLAG_N));
    assert!(p.get_flag(FLAG_C));
    assert_eq!(p.bits(), 0x01);
}

#[test]
fn clear_resets_every_flag() {
    let mut p = ProcStat::from_bits(0xFF);
    p.clear();
    assert_eq!(p.bits(), 0);
}

#[test]
fn bits_roundtrip_through_from_bits() {
    let p = ProcStat::from_bits(0xA5);
    assert_eq!(p.bits(), 0xA5);
}

#[test]
fn display_is_eight_bits_msb_first() {
    assert_eq!(ProcStat::new().to_display(), "00000000");
    assert_eq!(ProcStat::from_bits(0b1000_0011).to_display(), "10000011");
    assert_eq!(ProcStat::from_bits(0xFF).to_display(), "11111111");
    let mut p = ProcStat::new();
    p.set_flag(FLAG_Z, true);
    assert_eq!(p.to_display(), "00000010");
}
