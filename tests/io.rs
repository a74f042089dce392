use gbemu::io::{IoError, GBIO};

#[test]
fn io_power_on() {
    let io = GBIO::new();
    assert!(io.boot_sequence());
    assert_eq!(io.read_byte(0x00), Ok(0));
    assert_eq!(io.read_byte(0x0f), Ok(0));
    assert_eq!(io.read_byte(0xff), Ok(0));
}

#[test]
fn io_routes_interrupts() {
    let mut io = GBIO::new();
    assert_eq!(io.write_byte(0xff, 0x1f), Ok(()));
    assert_eq!(io.write_byte(0x0f, 0x01), Ok(()));
    assert_eq!(io.read_byte(0xff), Ok(0x1f));
    assert_eq!(io.read_byte(0x0f), Ok(0x01));
    assert_eq!(io.interrupt.read_enable(), 0x1f);
}

#[test]
fn io_routes_joypad() {
    let mut io = GBIO::new();
    io.joypad.input_a = true;
    io.joypad.input_left = true;
    assert_eq!(io.read_byte(0x00), Ok(0b0010));
    assert_eq!(io.write_byte(0x00, 0x20), Ok(()));
    assert_eq!(io.read_byte(0x00), Ok(0b0001));
}

#[test]
fn io_routes_ppu() {
    let mut io = GBIO::new();
    assert_eq!(io.write_byte(0x47, 0x27), Ok(()));
    assert_eq!(io.read_byte(0x47), Ok(0x27));
    assert_eq!(io.ppu.read_ppu(0x47), Ok(0x27));
    assert_eq!(io.write_byte(0x44, 1), Err(IoError::ReadOnly(0x44)));
    assert_eq!(io.write_byte(0x41, 1), Err(IoError::Unimplemented(0x41)));
}

#[test]
fn io_sound_writes_are_accepted() {
    let mut io = GBIO::new();
    for addr in 0x10u8..=0x26 {
        assert_eq!(io.write_byte(addr, 0xff), Ok(()));
        assert_eq!(io.read_byte(addr), Err(IoError::WriteOnly(addr)));
    }
}

#[test]
fn io_unknown_offsets() {
    let mut io = GBIO::new();
    assert_eq!(io.write_byte(0x01, 0), Err(IoError::Unimplemented(0x01)));
    assert_eq!(io.write_byte(0x80, 0), Err(IoError::Unimplemented(0x80)));
    assert_eq!(io.read_byte(0x04), Err(IoError::Unimplemented(0x04)));
    assert_eq!(io.read_byte(0x50), Err(IoError::WriteOnly(0x50)));
}

#[test]
fn boot_flag_only_switches_off() {
    let mut io = GBIO::new();
    assert_eq!(io.write_byte(0x50, 0), Ok(()));
    assert!(io.boot_sequence());
    assert_eq!(io.write_byte(0x50, 0x01), Ok(()));
    assert!(!io.boot_sequence());
    assert_eq!(io.write_byte(0x50, 0), Ok(()));
    assert!(!io.boot_sequence());
    assert_eq!(io.write_byte(0x50, 0xff), Ok(()));
    assert!(!io.boot_sequence());
}
