use clicky::device::Device;
use clicky::hd66753::Hd66753;
use clicky::mem::MemException;

fn write16(lcd: &mut Hd66753, offset: u32, v: u16) {
    lcd.write32(offset, (v >> 8) as u32).unwrap();
    lcd.write32(offset, (v & 0xff) as u32).unwrap();
}

fn select(lcd: &mut Hd66753, ir: u16) {
    write16(lcd, 0x8, ir);
}

#[test]
fn paired_bytes_dispatch_as_one_word() {
    let mut lcd = Hd66753::new_hle(160, 128);
    select(&mut lcd, 0x10);
    lcd.write32(0x10, 0xab).unwrap();
    lcd.write32(0x10, 0xcd).unwrap();
    assert_eq!(lcd.regs().wm, 0xabcd);
}

#[test]
fn first_byte_alone_has_no_side_effect() {
    let mut lcd = Hd66753::new_hle(160, 128);
    select(&mut lcd, 0x10);
    let before = lcd.regs();
    lcd.write32(0x10, 0xab).unwrap();
    assert_eq!(lcd.regs(), before);
    assert_eq!(lcd.ac(), 0);
    assert_eq!(lcd.ir(), 0x10);
    assert_eq!(lcd.cgram_word(0), 0);
}

#[test]
fn only_low_byte_of_bus_value_is_latched() {
    let mut lcd = Hd66753::new_hle(160, 128);
    select(&mut lcd, 0x10);
    // The controller sits on an 8-bit bus: upper bits are ignored.
    lcd.write32(0x10, 0xffffffab).unwrap();
    lcd.write32(0x10, 0xffffffcd).unwrap();
    assert_eq!(lcd.regs().wm, 0xabcd);
}

#[test]
fn command_and_data_latches_are_independent() {
    let mut lcd = Hd66753::new_hle(160, 128);
    // Leave a high byte pending in the Data latch...
    lcd.write32(0x10, 0xab).unwrap();
    // ...then run a complete Command transaction in between.
    select(&mut lcd, 0x11);
    assert_eq!(lcd.ir(), 0x11);
    // The pending Data byte is still the high byte of this transaction:
    // the RAM address becomes 0xab02 mod 0x1080.
    lcd.write32(0x10, 0x02).unwrap();
    assert_eq!(lcd.ac(), 0xab02 % 0x1080);
}

#[test]
fn unmapped_write_does_not_touch_latches() {
    let mut lcd = Hd66753::new_hle(160, 128);
    select(&mut lcd, 0x10);
    lcd.write32(0x10, 0xab).unwrap();
    assert_eq!(lcd.write32(0x4, 0xff), Err(MemException::Unmapped));
    // The unmapped write consumed nothing: the pair still forms 0xabcd.
    lcd.write32(0x10, 0xcd).unwrap();
    assert_eq!(lcd.regs().wm, 0xabcd);
}

#[test]
fn control_register_reads_not_busy() {
    let mut lcd = Hd66753::new_hle(160, 128);
    assert_eq!(lcd.read32(0x0), Ok(0));
    assert_eq!(lcd.read32(0x0), Ok(0));
}

#[test]
fn command_register_reads_contrast_high_byte_first() {
    let mut lcd = Hd66753::new_hle(160, 128);
    select(&mut lcd, 0x04);
    write16(&mut lcd, 0x10, 0x0055);
    assert_eq!(lcd.regs().ct, 0x55);
    // High byte of the 16-bit contrast value first, low byte second.
    assert_eq!(lcd.read32(0x8), Ok(0x00));
    assert_eq!(lcd.read32(0x8), Ok(0x55));
}

#[test]
fn pending_read_byte_drains_before_any_new_read() {
    let mut lcd = Hd66753::new_hle(160, 128);
    select(&mut lcd, 0x04);
    write16(&mut lcd, 0x10, 0x0055);
    assert_eq!(lcd.read32(0x8), Ok(0x00));
    // A read of any offset drains the pending low byte first.
    assert_eq!(lcd.read32(0x0), Ok(0x55));
}

#[test]
fn unmapped_reads_and_write_only_data_register() {
    let mut lcd = Hd66753::new_hle(160, 128);
    assert_eq!(lcd.read32(0x4), Err(MemException::Unmapped));
    // The Data register is write-only.
    assert_eq!(lcd.read32(0x10), Err(MemException::Unmapped));
}
