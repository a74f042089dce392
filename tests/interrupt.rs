use gbemu::interrupt::Interrupt;

#[test]
fn interrupt_power_on_reads_zero() {
    let i = Interrupt::default();
    assert_eq!(i.read_flags(), 0);
    assert_eq!(i.read_enable(), 0);
}

#[test]
fn interrupt_flags_round_trip_low_five_bits() {
    for v in 0u8..=0x1f {
        let mut i = Interrupt::default();
        i.write_flags(v);
        assert_eq!(i.read_flags(), v);
        assert_eq!(i.read_enable(), 0);
    }
}

#[test]
fn interrupt_enable_round_trip_low_five_bits() {
    for v in 0u8..=0x1f {
        let mut i = Interrupt::default();
        i.write_enable(v);
        assert_eq!(i.read_enable(), v);
        assert_eq!(i.read_flags(), 0);
    }
}

#[test]
fn interrupt_high_bits_are_not_stored() {
    let mut i = Interrupt::default();
    i.write_flags(0xff);
    i.write_enable(0xe3);
    assert_eq!(i.read_flags(), 0x1f);
    assert_eq!(i.read_enable(), 0x03);
}

#[test]
fn interrupt_write_overwrites_rather_than_ors() {
    let mut i = Interrupt::default();
    i.write_flags(0x1f);
    i.write_flags(0x04);
    assert_eq!(i.read_flags(), 0x04);
    assert!(!i.flagged_vblank && i.flagged_timer && !i.flagged_joypad);
}

#[test]
fn interrupt_enable_then_flags_scenario() {
    let mut i = Interrupt::default();
    i.write_enable(0x1f);
    i.write_flags(0x01);
    assert_eq!(i.read_enable(), 0x1f);
    assert_eq!(i.read_flags(), 0x01);
}
