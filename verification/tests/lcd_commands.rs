use clicky::device::Device;
use clicky::hd66753::Hd66753;
use clicky::mem::{Fatal, MemException, Severity, Violation};

/// Write a 16-bit value to a controller register as two 8-bit bus
/// transactions, high byte first.
fn write16(lcd: &mut Hd66753, offset: u32, v: u16) {
    lcd.write32(offset, (v >> 8) as u32).unwrap();
    lcd.write32(offset, (v & 0xff) as u32).unwrap();
}

/// Select the command the next data write affects.
fn select(lcd: &mut Hd66753, ir: u16) {
    write16(lcd, 0x8, ir);
}

/// Write a latched 16-bit data word, returning the dispatch result.
fn data(lcd: &mut Hd66753, v: u16) -> Result<(), MemException> {
    lcd.write32(0x10, (v >> 8) as u32)?;
    lcd.write32(0x10, (v & 0xff) as u32)
}

#[test]
fn fresh_controller_is_reset() {
    let lcd = Hd66753::new_hle(160, 128);
    assert_eq!(lcd.width(), 160);
    assert_eq!(lcd.height(), 128);
    assert_eq!(lcd.ir(), 0);
    assert_eq!(lcd.ac(), 0);
    assert!(!lcd.invert());
    let regs = lcd.regs();
    assert_eq!(regs.wm, 0);
    assert_eq!(regs.lg, 0);
    assert_eq!(regs.rt, 0);
    assert!(!regs.i_d);
    for i in [0usize, 1, 0x107f] {
        assert_eq!(lcd.cgram_word(i), 0);
    }
}

#[test]
fn driver_output_control_roundtrip() {
    let mut lcd = Hd66753::new_hle(160, 128);
    select(&mut lcd, 0x01);
    data(&mut lcd, 0x0317).unwrap();
    let regs = lcd.regs();
    assert!(regs.cms);
    assert!(regs.sgs);
    assert_eq!(regs.nl, 0x17);
}

#[test]
fn contrast_control_roundtrip() {
    let mut lcd = Hd66753::new_hle(160, 128);
    select(&mut lcd, 0x04);
    data(&mut lcd, 0x0755).unwrap();
    let regs = lcd.regs();
    assert_eq!(regs.vr, 0x7);
    assert_eq!(regs.ct, 0x55);
}

#[test]
fn entry_mode_roundtrip() {
    let mut lcd = Hd66753::new_hle(160, 128);
    select(&mut lcd, 0x05);
    // i_d = 1, am = 0b01, lg = 0b10
    data(&mut lcd, 0b1_01_10).unwrap();
    let regs = lcd.regs();
    assert!(regs.i_d);
    assert_eq!(regs.am, 1);
    assert_eq!(regs.lg, 2);
}

#[test]
fn entry_mode_am_11_is_contract_violation() {
    let mut lcd = Hd66753::new_hle(160, 128);
    select(&mut lcd, 0x05);
    let r = data(&mut lcd, 0b0_11_00);
    assert_eq!(
        r,
        Err(MemException::ContractViolation(
            Violation::InvalidEntryModeAm,
            Severity::Error
        ))
    );
    // The refused write set nothing.
    let regs = lcd.regs();
    assert_eq!(regs.am, 0);
    assert_eq!(regs.lg, 0);
    assert!(!regs.i_d);
}

#[test]
fn entry_mode_am_00_never_violates() {
    let mut lcd = Hd66753::new_hle(160, 128);
    select(&mut lcd, 0x05);
    data(&mut lcd, 0b0_00_11).unwrap();
    assert_eq!(lcd.regs().am, 0);
    assert_eq!(lcd.regs().lg, 3);
}

#[test]
fn rotation_roundtrip() {
    let mut lcd = Hd66753::new_hle(160, 128);
    select(&mut lcd, 0x06);
    data(&mut lcd, 0xfffd).unwrap();
    // Only the low 3 bits are the RT field.
    assert_eq!(lcd.regs().rt, 5);
}

#[test]
fn display_control_roundtrip() {
    let mut lcd = Hd66753::new_hle(160, 128);
    select(&mut lcd, 0x07);
    // spt = 1, gsh = 0b11, gsl = 0b01, rev = 1, d = 0
    data(&mut lcd, 0x0136).unwrap();
    let regs = lcd.regs();
    assert!(regs.spt);
    assert_eq!(regs.gsh, 3);
    assert_eq!(regs.gsl, 1);
    assert!(regs.rev);
    assert!(!regs.d);
    assert!(lcd.invert());
}

#[test]
fn write_data_mask_roundtrip() {
    let mut lcd = Hd66753::new_hle(160, 128);
    select(&mut lcd, 0x10);
    data(&mut lcd, 0xabcd).unwrap();
    assert_eq!(lcd.regs().wm, 0xabcd);
}

#[test]
fn ram_address_set_wraps_modulo_store() {
    let mut lcd = Hd66753::new_hle(160, 128);
    select(&mut lcd, 0x11);
    data(&mut lcd, 0x1234).unwrap();
    assert_eq!(lcd.ac(), 0x1234 % 0x1080);
    select(&mut lcd, 0x11);
    data(&mut lcd, 0x2000).unwrap();
    assert_eq!(lcd.ac(), 0x2000 % 0x1080);
}

#[test]
fn invalid_index_register_is_violation_but_recorded() {
    let mut lcd = Hd66753::new_hle(160, 128);
    let r = {
        lcd.write32(0x8, 0x00).unwrap();
        lcd.write32(0x8, 0x13)
    };
    assert_eq!(
        r,
        Err(MemException::ContractViolation(
            Violation::InvalidLcdCommand(0x13),
            Severity::Error
        ))
    );
    // The offending value is still recorded for diagnostics.
    assert_eq!(lcd.ir(), 0x13);
}

#[test]
fn noop_commands_have_no_effect() {
    let mut lcd = Hd66753::new_hle(160, 128);
    let before = lcd.regs();
    for ir in [0x09u16, 0x0a] {
        select(&mut lcd, ir);
        data(&mut lcd, 0xffff).unwrap();
        assert_eq!(lcd.regs(), before);
        assert_eq!(lcd.ac(), 0);
        assert_eq!(lcd.cgram_word(0), 0);
    }
}

#[test]
fn horizontal_cursor_position_is_fatal() {
    let mut lcd = Hd66753::new_hle(160, 128);
    select(&mut lcd, 0x0b);
    let r = data(&mut lcd, 0x0000);
    assert_eq!(
        r,
        Err(MemException::FatalError(Fatal::UnimplementedLcdCommand(
            0x0b
        )))
    );
}

#[test]
fn unimplemented_commands_are_fatal() {
    for ir in [0x02u16, 0x03, 0x08, 0x0b, 0x0c, 0x0d, 0x0e] {
        let mut lcd = Hd66753::new_hle(160, 128);
        select(&mut lcd, ir);
        let r = data(&mut lcd, 0x1234);
        assert_eq!(
            r,
            Err(MemException::FatalError(Fatal::UnimplementedLcdCommand(ir)))
        );
    }
}

#[test]
fn non_command_index_values_are_fatal_at_data_time() {
    for ir in [0x00u16, 0x0f] {
        let mut lcd = Hd66753::new_hle(160, 128);
        select(&mut lcd, ir);
        let r = data(&mut lcd, 0x1234);
        assert_eq!(
            r,
            Err(MemException::FatalError(Fatal::InvalidLcdCommand(ir)))
        );
    }
}

#[test]
fn data_write_after_invalid_index_is_fatal() {
    let mut lcd = Hd66753::new_hle(160, 128);
    lcd.write32(0x8, 0x00).unwrap();
    let _ = lcd.write32(0x8, 0x42);
    let r = data(&mut lcd, 0x0001);
    assert_eq!(
        r,
        Err(MemException::FatalError(Fatal::InvalidLcdCommand(0x42)))
    );
}
