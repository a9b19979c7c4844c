use clicky::device::{Device, Probe};
use clicky::eide::EIDECon;
use clicky::i2c::I2CCon;
use clicky::ide::{IdeIdx, IdeReg};
use clicky::mem::{MemException, Severity};

#[test]
fn i2c_known_registers_answer_as_stubs() {
    let mut i2c = I2CCon::new_hle();
    for offset in [0x00c, 0x100, 0x104, 0x120, 0x140] {
        assert_eq!(
            i2c.read32(offset),
            Err(MemException::StubRead(Severity::Info, 0))
        );
        assert_eq!(
            i2c.write32(offset, 0xdead_beef),
            Err(MemException::StubWrite(Severity::Info))
        );
        assert!(matches!(i2c.probe(offset), Probe::Register(_)));
    }
}

#[test]
fn i2c_unknown_offsets_are_unmapped() {
    let mut i2c = I2CCon::new_hle();
    for offset in [0x000, 0x010, 0x13c, 0x144] {
        assert_eq!(i2c.read32(offset), Err(MemException::Unmapped));
        assert_eq!(i2c.write32(offset, 0), Err(MemException::Unmapped));
        assert_eq!(i2c.probe(offset), Probe::Unmapped);
    }
}

#[test]
fn i2c_probe_names_input_register() {
    let i2c = I2CCon::new_hle();
    assert_eq!(
        i2c.probe(0x140),
        Probe::Register("Scroll Wheel + Keypad Buttons")
    );
    assert_eq!(i2c.kind(), "I2CCon");
}

#[test]
fn eide_timing_registers_roundtrip() {
    let mut eide = EIDECon::new();
    let offsets = [0x000, 0x004, 0x008, 0x00c, 0x010, 0x014, 0x018, 0x01c];
    for (i, offset) in offsets.into_iter().enumerate() {
        eide.write32(offset, 0x1000 + i as u32).unwrap();
    }
    for (i, offset) in offsets.into_iter().enumerate() {
        assert_eq!(eide.read32(offset), Ok(0x1000 + i as u32));
    }
}

#[test]
fn eide_cfg_register_exposes_and_clears_irqs() {
    let mut eide = EIDECon::new();
    assert_eq!(
        eide.read32(0x028),
        Err(MemException::StubRead(Severity::Info, 0))
    );
    eide.as_ide().raise_irq(IdeIdx::Ide0);
    eide.as_ide().raise_irq(IdeIdx::Ide1);
    assert_eq!(
        eide.read32(0x028),
        Err(MemException::StubRead(Severity::Info, 0x30))
    );
    // Writing bit 4 clears channel 0 only.
    assert_eq!(
        eide.write32(0x028, 0x10),
        Err(MemException::StubWrite(Severity::Info))
    );
    assert_eq!(
        eide.read32(0x028),
        Err(MemException::StubRead(Severity::Info, 0x20))
    );
    // Writing bit 5 clears channel 1.
    assert_eq!(
        eide.write32(0x028, 0x20),
        Err(MemException::StubWrite(Severity::Info))
    );
    assert_eq!(
        eide.read32(0x028),
        Err(MemException::StubRead(Severity::Info, 0))
    );
}

#[test]
fn eide_command_block_forwards_to_ide() {
    let mut eide = EIDECon::new();
    eide.write32(0x1e8, 0x7f).unwrap();
    assert_eq!(eide.read32(0x1e8), Ok(0x7f));
    eide.write32(0x1ec, 0x21).unwrap();
    assert_eq!(eide.read32(0x1ec), Ok(0x21));
    eide.write32(0x1f0, 0x34).unwrap();
    eide.write32(0x1f4, 0x12).unwrap();
    assert_eq!(eide.read32(0x1f0), Ok(0x34));
    assert_eq!(eide.read32(0x1f4), Ok(0x12));
    // The 16-bit data port keeps its full width.
    eide.write32(0x1e0, 0xbeef).unwrap();
    assert_eq!(eide.read32(0x1e0), Ok(0xbeef));
}

#[test]
fn eide_status_and_altstatus_share_a_register() {
    let mut eide = EIDECon::new();
    // Writing the Status/Command address stores the command, not status.
    eide.write32(0x1fc, 0xec).unwrap();
    assert_eq!(eide.read32(0x1fc), Ok(0));
    // The collaborator that runs commands sets status through the block.
    eide.as_ide().write8(IdeReg::Status, 0x50).unwrap();
    assert_eq!(eide.read32(0x1fc), Ok(0x50));
    assert_eq!(eide.read32(0x3f8), Ok(0x50));
}

#[test]
fn eide_data_port_low_byte_read() {
    let mut eide = EIDECon::new();
    eide.write32(0x1e0, 0xbeef).unwrap();
    assert_eq!(eide.as_ide().read8(IdeReg::Data), Ok(0xef));
}

#[test]
fn eide_dma_registers_are_stubs_that_retain_values() {
    let mut eide = EIDECon::new();
    for offset in [0x400, 0x408, 0x40c, 0x410] {
        assert_eq!(
            eide.write32(offset, offset + 1),
            Err(MemException::StubWrite(Severity::Error))
        );
        assert_eq!(
            eide.read32(offset),
            Err(MemException::StubRead(Severity::Error, offset + 1))
        );
    }
}

#[test]
fn eide_second_cfg_register_is_a_stub() {
    let mut eide = EIDECon::new();
    assert_eq!(
        eide.read32(0x02c),
        Err(MemException::StubRead(Severity::Error, 0))
    );
    assert_eq!(
        eide.write32(0x02c, 1),
        Err(MemException::StubWrite(Severity::Error))
    );
}

#[test]
fn eide_unknown_offsets_are_unmapped() {
    let mut eide = EIDECon::new();
    for offset in [0x020, 0x030, 0x1dc, 0x200, 0x3f4, 0x404, 0x414] {
        assert_eq!(eide.read32(offset), Err(MemException::Unmapped));
        assert_eq!(eide.write32(offset, 0), Err(MemException::Unmapped));
        assert_eq!(eide.probe(offset), Probe::Unmapped);
    }
}

#[test]
fn eide_probe_names_command_block() {
    let eide = EIDECon::new();
    assert_eq!(eide.probe(0x000), Probe::Register("IDE0 Primary Timing 0"));
    assert_eq!(eide.probe(0x1fc), Probe::Register("Status/Command"));
    assert_eq!(eide.probe(0x3f8), Probe::Register("AltStatus/DeviceControl"));
    assert_eq!(eide.probe(0x400), Probe::Register("DMA Control"));
    assert_eq!(eide.kind(), "EIDE Controller");
}

#[test]
fn lcd_probe_names_its_registers() {
    let lcd = clicky::hd66753::Hd66753::new_hle(160, 128);
    assert_eq!(lcd.probe(0x0), Probe::Register("LCD Control"));
    assert_eq!(lcd.probe(0x8), Probe::Register("LCD Command"));
    assert_eq!(lcd.probe(0x10), Probe::Register("LCD Data"));
    assert_eq!(lcd.probe(0x4), Probe::Unmapped);
    assert_eq!(lcd.kind(), "HD 66753");
}
